//! Dynamic library facilities: which file holds the runtime on which
//! platform, how the loader's search path is written, and how the loader's
//! answers are read. Loading itself is left to the caller.

use crate::ffi::table::{NativeCall, Symbol};
use vstd::prelude::*;

verus! {

/// The platforms whose loader conventions are known.
#[derive(Clone, Copy, Debug, PartialEq, Eq, Structural)]
pub enum Platform {
    Windows,
    MacOs,
    Linux,
}

/// The width of a pointer on the target.
#[derive(Clone, Copy, Debug, PartialEq, Eq, Structural)]
pub enum PointerWidth {
    Bits32,
    Bits64,
}

/// Which build of the runtime library to load: the platform and pointer
/// width it was built for, and the product and major version of its ABI.
#[derive(Clone, Copy, Debug, PartialEq, Eq)]
pub struct LibraryName {
    pub platform: Platform,
    pub width: PointerWidth,
    pub product: &'static str,
    pub major: &'static str,
}

/// A loaded dynamic library, by the address of its native handle. The value
/// cannot be copied: whoever holds it is the one owner of the handle.
#[derive(Debug, PartialEq, Eq)]
pub struct UnsafeDynamicLibrary {
    pub handle: usize,
}

/// The mode libraries are opened in on Unix: symbols are bound lazily.
pub const LAZY: i32 = 1;

impl PointerWidth {
    /// The width in bits, in decimal.
    pub open spec fn bits_spec(self) -> Seq<char> {
        match self {
            PointerWidth::Bits32 => seq!['3', '2'],
            PointerWidth::Bits64 => seq!['6', '4'],
        }
    }

    pub fn bits(&self) -> (bits: &'static str)
        ensures
            bits@ == self.bits_spec(),
    {
        proof {
            reveal_strlit("32");
            reveal_strlit("64");
        }
        match self {
            PointerWidth::Bits32 => {
                assert("32"@ =~= seq!['3', '2']);
                "32"
            },
            PointerWidth::Bits64 => {
                assert("64"@ =~= seq!['6', '4']);
                "64"
            },
        }
    }
}

impl Platform {
    /// The environment variable that holds the loader's search path.
    pub open spec fn envvar_spec(self) -> &'static str {
        match self {
            Platform::Windows => "PATH",
            Platform::MacOs => "DYLD_LIBRARY_PATH",
            Platform::Linux => "LD_LIBRARY_PATH",
        }
    }

    /// The character between two entries of a search path.
    pub open spec fn separator_spec(self) -> char {
        match self {
            Platform::Windows => ';',
            _ => ':',
        }
    }

    pub fn separator_char(&self) -> (separator: char)
        ensures
            separator == self.separator_spec(),
    {
        match self {
            Platform::Windows => ';',
            _ => ':',
        }
    }
}

impl LibraryName {
    /// The file that holds the library, by the platform's convention.
    ///
    /// - Windows: `LibOVRRT<bits>_<product>_<major>`, to which the loader
    ///   adds its extension.
    /// - macOS: `LibOVRRT_<product>.framework/Versions/<major>/LibOVRRT_<product>`.
    /// - Linux: `/usr/local/lib/libOVRRT<bits>_<product>.so.<major>`.
    pub open spec fn file_name_spec(self) -> Seq<char> {
        match self.platform {
            Platform::Windows => "LibOVRRT"@ + self.width.bits_spec() + "_"@ + self.product@ + "_"@
                + self.major@,
            Platform::MacOs => "LibOVRRT_"@ + self.product@ + ".framework/Versions/"@ + self.major@
                + "/LibOVRRT_"@ + self.product@,
            Platform::Linux => "/usr/local/lib/libOVRRT"@ + self.width.bits_spec() + "_"@
                + self.product@ + ".so."@ + self.major@,
        }
    }

    pub fn file_name(&self) -> (name: String)
        ensures
            name@ == self.file_name_spec(),
    {
        match self.platform {
            Platform::Windows => {
                let mut name = String::from_str("LibOVRRT");
                name.append(self.width.bits());
                name.append("_");
                name.append(self.product);
                name.append("_");
                name.append(self.major);
                name
            },
            Platform::MacOs => {
                let mut name = String::from_str("LibOVRRT_");
                name.append(self.product);
                name.append(".framework/Versions/");
                name.append(self.major);
                name.append("/LibOVRRT_");
                name.append(self.product);
                name
            },
            Platform::Linux => {
                let mut name = String::from_str("/usr/local/lib/libOVRRT");
                name.append(self.width.bits());
                name.append("_");
                name.append(self.product);
                name.append(".so.");
                name.append(self.major);
                name
            },
        }
    }
}

/// The entries of a search path, written one after the other with the
/// separator between each two.
pub open spec fn joined(paths: Seq<Seq<char>>, separator: char) -> Seq<char>
    decreases paths.len(),
{
    if paths.len() == 0 {
        Seq::empty()
    } else if paths.len() == 1 {
        paths[0]
    } else {
        joined(paths.drop_last(), separator).push(separator) + paths.last()
    }
}

/// The position of the first separator in a text, or the length of the text
/// if it holds none.
pub open spec fn first_separator(text: Seq<char>, separator: char) -> int
    decreases text.len(),
{
    if text.len() == 0 || text[0] == separator {
        0
    } else {
        1 + first_separator(text.drop_first(), separator)
    }
}

/// The entries of a search path: the pieces of the text between its
/// separators, in order, empty ones among them. A text with no separator is
/// one entry.
pub open spec fn split(text: Seq<char>, separator: char) -> Seq<Seq<char>>
    decreases text.len(),
{
    let first = first_separator(text, separator);
    if 0 <= first < text.len() {
        seq![text.take(first)] + split(text.skip(first + 1), separator)
    } else {
        seq![text]
    }
}

/// What each string of a list holds.
pub open spec fn texts(strings: Seq<String>) -> Seq<Seq<char>> {
    strings.map_values(|s: String| s@)
}

/// The first separator lies in the text or right behind it, nothing before
/// it is a separator, and it is the only position of which that holds.
pub proof fn lemma_first_separator(text: Seq<char>, separator: char)
    ensures
        0 <= first_separator(text, separator) <= text.len(),
        first_separator(text, separator) < text.len() ==> text[first_separator(text, separator)]
            == separator,
        forall|i: int| 0 <= i < first_separator(text, separator) ==> text[i] != separator,
        forall|k: int|
            0 <= k <= text.len() && (k < text.len() ==> text[k] == separator) && (forall|i: int|
                0 <= i < k ==> text[i] != separator) ==> first_separator(text, separator) == k,
    decreases text.len(),
{
    if text.len() == 0 || text[0] == separator {
        assert forall|k: int|
            0 <= k <= text.len() && (k < text.len() ==> text[k] == separator) && (forall|i: int|
                0 <= i < k ==> text[i] != separator) implies first_separator(text, separator)
            == k by {
            if k > 0 {
                assert(text[0] != separator);
            }
        }
    } else {
        let rest = text.drop_first();
        lemma_first_separator(rest, separator);
        let first = first_separator(rest, separator);
        assert forall|i: int| 0 <= i < 1 + first implies text[i] != separator by {
            if i > 0 {
                assert(rest[i - 1] == text[i]);
            }
        }
        assert forall|k: int|
            0 <= k <= text.len() && (k < text.len() ==> text[k] == separator) && (forall|i: int|
                0 <= i < k ==> text[i] != separator) implies first_separator(text, separator)
            == k by {
            assert(k > 0);
            assert forall|i: int| 0 <= i < k - 1 implies rest[i] != separator by {
                assert(rest[i] == text[i + 1]);
            }
            if k - 1 < rest.len() {
                assert(rest[k - 1] == text[k]);
            }
        }
    }
}

/// A text that ends in a separator and an entry splits into the entries of
/// what stands before that separator, followed by the entry.
pub proof fn lemma_split_last_entry(before: Seq<char>, last: Seq<char>, separator: char)
    requires
        !last.contains(separator),
    ensures
        split(before.push(separator) + last, separator) == split(before, separator).push(last),
    decreases before.len(),
{
    let text = before.push(separator) + last;
    lemma_first_separator(before, separator);
    lemma_first_separator(text, separator);
    lemma_first_separator(last, separator);
    let first = first_separator(before, separator);
    assert(forall|i: int| 0 <= i < before.len() ==> text[i] == before[i]);
    assert(text[before.len() as int] == separator);
    if first < before.len() {
        assert(first_separator(text, separator) == first);
        assert(text.take(first) =~= before.take(first));
        assert(text.skip(first + 1) =~= before.skip(first + 1).push(separator) + last);
        lemma_split_last_entry(before.skip(first + 1), last, separator);
        assert(split(text, separator) =~= split(before, separator).push(last));
    } else {
        assert(first_separator(text, separator) == before.len());
        assert(text.take(before.len() as int) =~= before);
        assert(text.skip(before.len() as int + 1) =~= last);
        if first_separator(last, separator) < last.len() {
            assert(last.contains(last[first_separator(last, separator)]));
        }
        assert(split(last, separator) =~= seq![last]);
        assert(split(text, separator) =~= split(before, separator).push(last));
    }
}

/// What is written is what is read: a search path of at least one entry,
/// none of which holds the separator, is split into exactly its entries.
pub proof fn lemma_split_of_joined(paths: Seq<Seq<char>>, separator: char)
    requires
        paths.len() >= 1,
        forall|i: int| 0 <= i < paths.len() ==> !(#[trigger] paths[i]).contains(separator),
    ensures
        split(joined(paths, separator), separator) == paths,
    decreases paths.len(),
{
    if paths.len() == 1 {
        let only = paths[0];
        lemma_first_separator(only, separator);
        if first_separator(only, separator) < only.len() {
            assert(only.contains(only[first_separator(only, separator)]));
        }
        assert(split(only, separator) =~= paths);
    } else {
        let init = paths.drop_last();
        assert forall|i: int| 0 <= i < init.len() implies !(#[trigger] init[i]).contains(
            separator,
        ) by {
            assert(init[i] == paths[i]);
        }
        lemma_split_of_joined(init, separator);
        lemma_split_last_entry(joined(init, separator), paths.last(), separator);
        assert(init.push(paths.last()) =~= paths);
    }
}

impl UnsafeDynamicLibrary {
    /// Returns the environment variable for a platform's dynamic library
    /// search path.
    pub fn envvar(platform: Platform) -> (name: &'static str)
        ensures
            name == platform.envvar_spec(),
    {
        match platform {
            Platform::Windows => "PATH",
            Platform::MacOs => "DYLD_LIBRARY_PATH",
            Platform::Linux => "LD_LIBRARY_PATH",
        }
    }

    /// The text between two entries of a platform's search path.
    pub fn separator(platform: Platform) -> (separator: &'static str)
        ensures
            separator@ == seq![platform.separator_spec()],
    {
        proof {
            reveal_strlit(";");
            reveal_strlit(":");
        }
        match platform {
            Platform::Windows => {
                assert(";"@ =~= seq![';']);
                ";"
            },
            _ => {
                assert(":"@ =~= seq![':']);
                ":"
            },
        }
    }

    /// From a list of paths, create the text which is suitable to be an
    /// environment variable for a platform's dylib search path.
    pub fn create_path(path: &Vec<String>, platform: Platform) -> (newvar: String)
        ensures
            newvar@ == joined(texts(path@), platform.separator_spec()),
    {
        let mut newvar = String::new();
        let mut i: usize = 0;
        while i < path.len()
            invariant
                i <= path.len(),
                newvar@ == joined(texts(path@).take(i as int), platform.separator_spec()),
            decreases path.len() - i,
        {
            let ghost before = texts(path@).take(i as int);
            let ghost after = texts(path@).take(i + 1);
            assert(after.drop_last() =~= before);
            assert(after.last() == path@[i as int]@);
            if i > 0 {
                newvar.append(UnsafeDynamicLibrary::separator(platform));
                assert(newvar@ =~= joined(before, platform.separator_spec()).push(
                    platform.separator_spec(),
                ));
            } else {
                assert(newvar@ =~= Seq::<char>::empty());
            }
            newvar.append(path[i].as_str());
            assert(newvar@ =~= joined(after, platform.separator_spec()));
            i += 1;
        }
        assert(texts(path@).take(path@.len() as int) =~= texts(path@));
        newvar
    }

    /// Returns the search path for dynamic libraries that the environment
    /// variable holds: no entry if it is unset, else its value split at the
    /// platform's separator.
    pub fn search_path(var: Option<&str>, platform: Platform) -> (path: Vec<String>)
        ensures
            texts(path@) == match var {
                Some(value) => split(value@, platform.separator_spec()),
                None => Seq::empty(),
            },
    {
        match var {
            None => {
                let path = Vec::new();
                assert(texts(path@) =~= Seq::<Seq<char>>::empty());
                path
            },
            Some(value) => {
                let separator = platform.separator_char();
                let len = value.unicode_len();
                let mut path: Vec<String> = Vec::new();
                let mut start: usize = 0;
                let mut i: usize = 0;
                assert(texts(path@) =~= Seq::<Seq<char>>::empty());
                assert(value@.skip(0) =~= value@);
                while i < len
                    invariant
                        start <= i <= len,
                        len == value@.len(),
                        separator == platform.separator_spec(),
                        forall|j: int| start <= j < i ==> value@[j] != separator,
                        texts(path@) + split(value@.skip(start as int), separator) == split(
                            value@,
                            separator,
                        ),
                    decreases len - i,
                {
                    if value.get_char(i) == separator {
                        let piece = String::from_str(value.substring_char(start, i));
                        proof {
                            let rest = value@.skip(start as int);
                            lemma_first_separator(rest, separator);
                            assert(rest[i - start] == value@[i as int]);
                            assert forall|j: int| 0 <= j < i - start implies rest[j]
                                != separator by {
                                assert(rest[j] == value@[start + j]);
                            }
                            assert(first_separator(rest, separator) == i - start);
                            assert(rest.take(i - start) =~= value@.subrange(
                                start as int,
                                i as int,
                            ));
                            assert(rest.skip(i - start + 1) =~= value@.skip(i + 1));
                            assert(texts(path@.push(piece)) =~= texts(path@).push(piece@));
                            assert(texts(path@).push(piece@) + split(value@.skip(i + 1), separator)
                                =~= texts(path@) + split(rest, separator));
                        }
                        path.push(piece);
                        start = i + 1;
                    }
                    i += 1;
                }
                let piece = String::from_str(value.substring_char(start, len));
                proof {
                    let rest = value@.skip(start as int);
                    lemma_first_separator(rest, separator);
                    assert forall|j: int| 0 <= j < rest.len() implies rest[j] != separator by {
                        assert(rest[j] == value@[start + j]);
                    }
                    assert(first_separator(rest, separator) == rest.len());
                    assert(rest =~= value@.subrange(start as int, len as int));
                    assert(texts(path@.push(piece)) =~= texts(path@).push(piece@));
                    assert(texts(path@).push(piece@) =~= texts(path@) + split(rest, separator));
                }
                path.push(piece);
                path
            },
        }
    }

    /// The value to set the environment variable to so that `path` comes
    /// first in the search path for dynamic libraries: `path`, followed by
    /// the entries the variable holds.
    pub fn prepend_search_path(path: &str, var: Option<&str>, platform: Platform) -> (newvar: String)
        ensures
            newvar@ == joined(
                seq![path@] + match var {
                    Some(value) => split(value@, platform.separator_spec()),
                    None => Seq::empty(),
                },
                platform.separator_spec(),
            ),
    {
        let mut search_path = UnsafeDynamicLibrary::search_path(var, platform);
        let ghost before = texts(search_path@);
        let first = String::from_str(path);
        search_path.insert(0, first);
        assert(texts(search_path@) =~= seq![path@] + before);
        UnsafeDynamicLibrary::create_path(&search_path, platform)
    }

    /// The request to open a library, or with `None` the process itself.
    pub fn open(library: Option<LibraryName>) -> (call: NativeCall)
        ensures
            call == (NativeCall::LoadLibrary { library }),
    {
        NativeCall::LoadLibrary { library }
    }

    /// Reads the loader's answer to a request to open a library: a handle,
    /// or the loader's error text. No library value is made of an error, so
    /// that nothing ever closes what was never opened.
    pub fn opened(answer: Result<usize, String>) -> (library: Result<UnsafeDynamicLibrary, String>)
        ensures
            library == match answer {
                Ok(handle) => Ok::<UnsafeDynamicLibrary, String>(UnsafeDynamicLibrary { handle }),
                Err(text) => Err(text),
            },
    {
        match answer {
            Err(err) => Err(err),
            Ok(handle) => Ok(UnsafeDynamicLibrary { handle }),
        }
    }

    /// The request to look up an entry point in the library.
    pub fn symbol(&self, symbol: Symbol) -> (call: NativeCall)
        ensures
            call == (NativeCall::ResolveSymbol { library: self.handle, symbol }),
    {
        NativeCall::ResolveSymbol { library: self.handle, symbol }
    }

    /// The request to unload the library. The library is consumed, so the
    /// request is handed out once.
    pub fn close(self) -> (call: NativeCall)
        ensures
            call == (NativeCall::UnloadLibrary { library: self.handle }),
    {
        NativeCall::UnloadLibrary { library: self.handle }
    }
}

/// Whether a name can be handed to the loader as it is: it holds no NUL
/// character, which would end the name early.
pub fn is_c_string(name: &str) -> (fit: bool)
    ensures
        fit == !name@.contains('\0'),
{
    let len = name.unicode_len();
    let mut i: usize = 0;
    while i < len
        invariant
            i <= len,
            len == name@.len(),
            forall|j: int| 0 <= j < i ==> name@[j] != '\0',
        decreases len - i,
    {
        if name.get_char(i) == '\0' {
            return false;
        }
        i += 1;
    }
    true
}

/// What a call to the Unix loader came to, given the error text the loader
/// holds after the call: the call's result if it holds none, else the text.
pub fn check_for_errors_in<T>(result: T, last_error: Option<String>) -> (checked: Result<T, String>)
    ensures
        checked == match last_error {
            None => Ok::<T, String>(result),
            Some(text) => Err(text),
        },
{
    match last_error {
        None => Ok(result),
        Some(text) => Err(text),
    }
}

/// The decimal digit for a number below ten.
pub open spec fn digit_spec(d: nat) -> char {
    if d == 0 {
        '0'
    } else if d == 1 {
        '1'
    } else if d == 2 {
        '2'
    } else if d == 3 {
        '3'
    } else if d == 4 {
        '4'
    } else if d == 5 {
        '5'
    } else if d == 6 {
        '6'
    } else if d == 7 {
        '7'
    } else if d == 8 {
        '8'
    } else {
        '9'
    }
}

/// A number in decimal, without leading zeros.
pub open spec fn decimal_spec(n: nat) -> Seq<char>
    decreases n,
{
    if n < 10 {
        seq![digit_spec(n)]
    } else {
        decimal_spec(n / 10).push(digit_spec(n % 10))
    }
}

fn digit(d: u32) -> (text: &'static str)
    requires
        d < 10,
    ensures
        text@ == seq![digit_spec(d as nat)],
{
    proof {
        reveal_strlit("0");
        reveal_strlit("1");
        reveal_strlit("2");
        reveal_strlit("3");
        reveal_strlit("4");
        reveal_strlit("5");
        reveal_strlit("6");
        reveal_strlit("7");
        reveal_strlit("8");
        reveal_strlit("9");
    }
    let text = if d == 0 {
        "0"
    } else if d == 1 {
        "1"
    } else if d == 2 {
        "2"
    } else if d == 3 {
        "3"
    } else if d == 4 {
        "4"
    } else if d == 5 {
        "5"
    } else if d == 6 {
        "6"
    } else if d == 7 {
        "7"
    } else if d == 8 {
        "8"
    } else {
        "9"
    };
    assert(text@ =~= seq![digit_spec(d as nat)]);
    text
}

/// A number in decimal.
pub fn decimal(n: u32) -> (text: String)
    ensures
        text@ == decimal_spec(n as nat),
    decreases n,
{
    if n < 10 {
        String::from_str(digit(n))
    } else {
        let mut text = decimal(n / 10);
        text.append(digit(n % 10));
        assert(text@ =~= decimal_spec(n as nat));
        text
    }
}

/// What a call to the Windows loader came to, given the thread's error code
/// after the call: the call's result if the code is zero, else the text
/// `Error code ` followed by the code in decimal.
pub fn check_for_error_code<T>(result: T, error: u32) -> (checked: Result<T, String>)
    ensures
        error == 0 ==> checked == Ok::<T, String>(result),
        error != 0 ==> (checked matches Err(text) && text@ == "Error code "@ + decimal_spec(
            error as nat,
        )),
{
    if 0 == error {
        Ok(result)
    } else {
        let mut text = String::from_str("Error code ");
        let code = decimal(error);
        text.append(code.as_str());
        Err(text)
    }
}

/// How a library is opened on Windows.
#[derive(Clone, Copy, Debug, PartialEq, Eq, Structural)]
pub enum WindowsOpen {
    /// By name, with `LoadLibraryW`.
    LoadLibrary,
    /// The process itself, with `GetModuleHandleExW`.
    ModuleHandle,
}

/// How to open on Windows: a library by its name, and with no name the
/// process itself.
pub fn open_windows(named: bool) -> (how: WindowsOpen)
    ensures
        how == if named {
            WindowsOpen::LoadLibrary
        } else {
            WindowsOpen::ModuleHandle
        },
{
    if named {
        WindowsOpen::LoadLibrary
    } else {
        WindowsOpen::ModuleHandle
    }
}

/// What opening on Windows came to. Loading by name fails exactly if the
/// handle is null; asking for the process's own handle fails exactly if
/// the call reports failure. The text names the call that failed.
pub fn opened_windows(how: WindowsOpen, handle: usize, succeeded: bool) -> (opened: Result<
    usize,
    String,
>)
    ensures
        match how {
            WindowsOpen::LoadLibrary => if handle == 0 {
                opened matches Err(text) && text@ == "LoadLibraryW failed"@
            } else {
                opened == Ok::<usize, String>(handle)
            },
            WindowsOpen::ModuleHandle => if !succeeded {
                opened matches Err(text) && text@ == "GetModuleHandleExW failed"@
            } else {
                opened == Ok::<usize, String>(handle)
            },
        },
{
    match how {
        WindowsOpen::LoadLibrary => {
            if handle == 0 {
                Err(String::from_str("LoadLibraryW failed"))
            } else {
                Ok(handle)
            }
        },
        WindowsOpen::ModuleHandle => {
            if !succeeded {
                Err(String::from_str("GetModuleHandleExW failed"))
            } else {
                Ok(handle)
            }
        },
    }
}

} // verus!
