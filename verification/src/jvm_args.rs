//! The edits made to the server's JVM argument file, which holds one argument
//! to a line.

use vstd::prelude::*;
use crate::coordinate::{coordinate_path, parse_coordinate};
use crate::error::Error;
use crate::library::{
    added_libraries, get_added_librarys, metadata_url, metadata_url_spec, references_view,
    FabricStyleLibrary, ReferenceText,
};
use crate::text::{
    char_flags, chars_of, equal, find_prefix, index_of_char, index_of_prefix,
    lemma_first_true_is, starts_with, string_of_range, strings_view,
};

verus! {

/// A line without the carriage return at its end, where it has one.
pub open spec fn strip_cr(line: Seq<char>) -> Seq<char> {
    if line.len() > 0 && line.last() == '\r' {
        line.drop_last()
    } else {
        line
    }
}

/// The lines of a text. A line ends at a line feed, or at a carriage return
/// and a line feed; neither belongs to the line. What follows the last line
/// feed is a line too, unless it is empty, and it keeps a carriage return at
/// its end.
pub open spec fn lines_of(text: Seq<char>) -> Seq<Seq<char>>
    decreases text.len(),
{
    let i = index_of_char(text, '\n');
    if text.len() == 0 {
        Seq::empty()
    } else if 0 <= i < text.len() {
        seq![strip_cr(text.take(i))] + lines_of(text.skip(i + 1))
    } else {
        seq![text]
    }
}

/// What becomes of one line; `None` where the line leaves.
///
/// The line `-Djava.net.preferIPv6Addresses=system` leaves. A line that
/// begins with `-DignoreList=` gets `,datafixerupper-` at its end. A line
/// that begins with `--launchTarget` becomes `--launchTarget pillowserver`.
/// A line that begins with `-DlegacyClassPath=` gets `addition` at its end.
/// Every other line stays.
pub open spec fn patch_line(line: Seq<char>, addition: Seq<char>) -> Option<Seq<char>> {
    if line == "-Djava.net.preferIPv6Addresses=system"@ {
        None
    } else if "-DignoreList="@.is_prefix_of(line) {
        Some(line + ",datafixerupper-"@)
    } else if "--launchTarget"@.is_prefix_of(line) {
        Some("--launchTarget pillowserver"@)
    } else if "-DlegacyClassPath="@.is_prefix_of(line) {
        Some(line + addition)
    } else {
        Some(line)
    }
}

/// The patched lines in their order, each with a line feed at its end.
pub open spec fn patch_lines(lines: Seq<Seq<char>>, addition: Seq<char>) -> Seq<char>
    decreases lines.len(),
{
    if lines.len() == 0 {
        Seq::empty()
    } else {
        patch_lines(lines.drop_last(), addition) + match patch_line(lines.last(), addition) {
            Some(line) => line + seq!['\n'],
            None => Seq::empty(),
        }
    }
}

/// The class path entries of these library paths: for each, the separator,
/// `libraries/` and the path.
pub open spec fn class_path_addition(paths: Seq<Seq<char>>, separator: char) -> Seq<char>
    decreases paths.len(),
{
    if paths.len() == 0 {
        Seq::empty()
    } else {
        class_path_addition(paths.drop_last(), separator) + seq![separator] + "libraries/"@
            + paths.last()
    }
}

/// Whether every library name is a coordinate.
pub open spec fn all_coordinates(libraries: Seq<ReferenceText>) -> bool {
    forall|i: int|
        0 <= i < libraries.len() ==> parse_coordinate((#[trigger] libraries[i]).name) is Some
}

/// The paths of the libraries, in their order.
pub open spec fn library_paths(libraries: Seq<ReferenceText>) -> Seq<Seq<char>> {
    Seq::new(
        libraries.len(),
        |i: int| coordinate_path(parse_coordinate(libraries[i].name)->0),
    )
}

/// What separates the entries of a class path.
pub open spec fn path_separator(windows: bool) -> char {
    if windows {
        ';'
    } else {
        ':'
    }
}

/// Whether a line gives the class path, so that the libraries are needed.
pub open spec fn needs_libraries(lines: Seq<Seq<char>>) -> bool {
    index_of_prefix(lines, "-DlegacyClassPath="@) < lines.len()
}

/// The patched argument file. Where a line gives the class path, each library
/// name has to be a coordinate.
pub open spec fn create_jvm_args_spec(text: Seq<char>, libraries: Seq<ReferenceText>, windows: bool)
    -> Result<Seq<char>, Error> {
    let lines = lines_of(text);
    if !needs_libraries(lines) {
        Ok(patch_lines(lines, Seq::empty()))
    } else if all_coordinates(libraries) {
        Ok(
            patch_lines(
                lines,
                class_path_addition(library_paths(libraries), path_separator(windows)),
            ),
        )
    } else {
        Err(Error::MalformedCoordinate)
    }
}

/// The game version that an argument file names: what follows
/// `--fml.mcVersion ` on the first line that begins with it.
pub open spec fn game_version_spec(text: Seq<char>) -> Option<Seq<char>> {
    let lines = lines_of(text);
    let i = index_of_prefix(lines, "--fml.mcVersion "@);
    if i < lines.len() {
        Some(lines[i].skip("--fml.mcVersion "@.len() as int))
    } else {
        None
    }
}

/// The lines of a text.
pub fn split_lines(text: &str) -> (lines: Vec<String>)
    ensures
        strings_view(lines@) == lines_of(text@),
{
    let v = chars_of(text);
    let n = v.len();
    let mut lines: Vec<String> = Vec::new();
    let mut start: usize = 0;
    assert(v@.skip(0) == v@);
    while start < n
        invariant
            start <= n == v.len(),
            v@ == text@,
            lines_of(text@) == strings_view(lines@) + lines_of(v@.skip(start as int)),
        decreases n - start,
    {
        let ghost rest = v@.skip(start as int);
        let mut end: usize = start;
        while end < n && v[end] != '\n'
            invariant
                start <= end <= n == v.len(),
                forall|j: int| start <= j < end ==> v@[j] != '\n',
            decreases n - end,
        {
            end += 1;
        }
        proof {
            assert forall|j: int| 0 <= j < end - start implies !char_flags(rest, '\n')[j] by {
                assert(rest[j] == v@[start + j]);
            }
            lemma_first_true_is(char_flags(rest, '\n'), end - start);
        }
        if end == n {
            lines.push(string_of_range(&v, start, n));
            start = n;
        } else {
            let stop = if end > start && v[end - 1] == '\r' {
                end - 1
            } else {
                end
            };
            lines.push(string_of_range(&v, start, stop));
            proof {
                let line = rest.take(end - start);
                assert(v@.subrange(start as int, stop as int) =~= strip_cr(line));
                assert(rest.skip(end - start + 1) =~= v@.skip(end + 1));
            }
            start = end + 1;
        }
    }
    lines
}

/// The game version that an argument file names, where it names one.
pub fn jvm_game_version(text: &str) -> (r: Option<String>)
    ensures
        match r {
            Some(version) => game_version_spec(text@) == Some(version@),
            None => game_version_spec(text@) is None,
        },
{
    let lines = split_lines(text);
    let at = find_prefix(&lines, "--fml.mcVersion ");
    if at == lines.len() {
        return None;
    }
    let line = chars_of(lines[at].as_str());
    let skip = chars_of("--fml.mcVersion ").len();
    let version = string_of_range(&line, skip, line.len());
    Some(version)
}

/// Whether an argument file gives a class path, so that patching it needs
/// the libraries.
pub fn jvm_args_need_libraries(text: &str) -> (r: bool)
    ensures
        r == needs_libraries(lines_of(text@)),
{
    let lines = split_lines(text);
    find_prefix(&lines, "-DlegacyClassPath=") < lines.len()
}

/// The address of the loader's metadata for the server of a game version.
pub fn jvm_args_metadata_url(game_version: &str, loader_ver: &str) -> (url: String)
    ensures
        url@ == metadata_url_spec(game_version@, loader_ver@, true),
{
    metadata_url(game_version, loader_ver, true)
}

/// The libraries that go onto the server's class path, out of those that the
/// loader lists: with the bridge.
pub fn jvm_args_libraries(fetched: Vec<FabricStyleLibrary>, game_version: &str, pillow_ver: &str)
    -> (added: Vec<FabricStyleLibrary>)
    ensures
        references_view(added@) == added_libraries(
            references_view(fetched@),
            game_version@,
            pillow_ver@,
            true,
        ),
{
    get_added_librarys(fetched, game_version, pillow_ver, true)
}

/// The class path entries of the libraries; `MalformedCoordinate` where a
/// name is no coordinate.
#[verifier::loop_isolation(false)]
fn make_class_path_addition(libraries: &Vec<FabricStyleLibrary>, windows: bool) -> (r: Result<
    String,
    Error,
>)
    ensures
        match r {
            Ok(addition) => all_coordinates(references_view(libraries@)) && addition@
                == class_path_addition(
                library_paths(references_view(libraries@)),
                path_separator(windows),
            ),
            Err(e) => e == Error::MalformedCoordinate && !all_coordinates(
                references_view(libraries@),
            ),
        },
{
    let separator = if windows {
        ';'
    } else {
        ':'
    };
    let ghost all = references_view(libraries@);
    let mut addition = String::new();
    let mut i: usize = 0;
    while i < libraries.len()
        invariant
            i <= libraries.len(),
            forall|j: int| 0 <= j < i ==> parse_coordinate((#[trigger] all[j]).name) is Some,
            addition@ == class_path_addition(library_paths(all).take(i as int), separator),
        decreases libraries.len() - i,
    {
        let path = match libraries[i].try_path() {
            Ok(path) => path,
            Err(e) => {
                assert(parse_coordinate(all[i as int].name) is None);
                return Err(e);
            },
        };
        addition.push(separator);
        addition.append("libraries/");
        addition.append(path.as_str());
        proof {
            let next = library_paths(all).take(i + 1);
            assert(next.drop_last() =~= library_paths(all).take(i as int));
        }
        i += 1;
    }
    assert(library_paths(all).take(libraries@.len() as int) =~= library_paths(all));
    Ok(addition)
}

/// Writes the patched lines, each with a line feed at its end.
fn write_lines(lines: &Vec<String>, addition: &str) -> (out: String)
    ensures
        out@ == patch_lines(strings_view(lines@), addition@),
{
    let ghost all = strings_view(lines@);
    let mut out = String::new();
    let mut i: usize = 0;
    while i < lines.len()
        invariant
            i <= lines.len(),
            all == strings_view(lines@),
            out@ == patch_lines(all.take(i as int), addition@),
        decreases lines.len() - i,
    {
        let line = lines[i].as_str();
        if equal(line, "-Djava.net.preferIPv6Addresses=system") {
            // The line leaves.
        } else if starts_with(line, "-DignoreList=") {
            out.append(line);
            out.append(",datafixerupper-");
            out.push('\n');
        } else if starts_with(line, "--launchTarget") {
            out.append("--launchTarget pillowserver");
            out.push('\n');
        } else if starts_with(line, "-DlegacyClassPath=") {
            out.append(line);
            out.append(addition);
            out.push('\n');
        } else {
            out.append(line);
            out.push('\n');
        }
        proof {
            let next = all.take(i + 1);
            assert(next.drop_last() =~= all.take(i as int));
        }
        i += 1;
    }
    assert(all.take(lines@.len() as int) =~= all);
    out
}

/// Patches a JVM argument file for the distribution's server. The libraries
/// are those that the distribution adds; they go onto the class path.
pub fn create_jvm_args(text: &str, libraries: &Vec<FabricStyleLibrary>, windows: bool) -> (r:
    Result<String, Error>)
    ensures
        match create_jvm_args_spec(text@, references_view(libraries@), windows) {
            Ok(out) => r is Ok && r->Ok_0@ == out,
            Err(e) => r == Err::<String, Error>(e),
        },
{
    let lines = split_lines(text);
    if find_prefix(&lines, "-DlegacyClassPath=") == lines.len() {
        proof {
            reveal_strlit("");
            assert(""@ =~= Seq::<char>::empty());
        }
        return Ok(write_lines(&lines, ""));
    }
    match make_class_path_addition(libraries, windows) {
        Ok(addition) => Ok(write_lines(&lines, addition.as_str())),
        Err(e) => Err(e),
    }
}

} // verus!
