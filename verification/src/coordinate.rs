//! Maven-style coordinates, `group:artifact:version[:classifier][@extension]`,
//! and the repository-relative paths they stand for.

use vstd::prelude::*;
use crate::error::Error;
use crate::text::{
    chars_of, find_char, lemma_split_first, lemma_split_first_none, push_all, replace_char,
    slice_from, split_first, string_of, string_of_range,
};

verus! {

/// A parsed coordinate.
#[derive(Clone, Debug, PartialEq, Eq)]
pub struct Coordinate {
    /// Dot-separated group.
    pub group: String,
    /// Artifact id.
    pub artifact: String,
    /// Version.
    pub version: String,
    /// Classifier, where the coordinate names one.
    pub classifier: Option<String>,
    /// File extension; `jar` where the coordinate names none.
    pub extension: String,
}

/// The characters of a [`Coordinate`].
pub struct CoordinateText {
    pub group: Seq<char>,
    pub artifact: Seq<char>,
    pub version: Seq<char>,
    pub classifier: Option<Seq<char>>,
    pub extension: Seq<char>,
}

impl View for Coordinate {
    type V = CoordinateText;

    open spec fn view(&self) -> CoordinateText {
        CoordinateText {
            group: self.group@,
            artifact: self.artifact@,
            version: self.version@,
            classifier: match self.classifier {
                Some(c) => Some(c@),
                None => None,
            },
            extension: self.extension@,
        }
    }
}

impl CoordinateText {
    /// Group, artifact and version are not empty.
    pub open spec fn wf(self) -> bool {
        self.group.len() > 0 && self.artifact.len() > 0 && self.version.len() > 0
    }
}

/// What a coordinate string means.
///
/// The text is cut at its first three `:` into group, artifact, version and a
/// remainder. The remainder is cut at its first `@` into classifier and
/// extension; an empty classifier counts as none, and without an `@` the
/// extension is `jar`. A text with fewer than two `:`, or with an empty group,
/// artifact or version, is no coordinate.
pub open spec fn parse_coordinate(text: Seq<char>) -> Option<CoordinateText> {
    let (group, after_group) = split_first(text, ':');
    match after_group {
        None => None,
        Some(rest) => {
            let (artifact, after_artifact) = split_first(rest, ':');
            match after_artifact {
                None => None,
                Some(rest) => {
                    let (version, remainder) = split_first(rest, ':');
                    if group.len() == 0 || artifact.len() == 0 || version.len() == 0 {
                        None
                    } else {
                        match remainder {
                            None => Some(
                                CoordinateText {
                                    group,
                                    artifact,
                                    version,
                                    classifier: None,
                                    extension: "jar"@,
                                },
                            ),
                            Some(remainder) => {
                                let (classifier, extension) = split_first(remainder, '@');
                                Some(
                                    CoordinateText {
                                        group,
                                        artifact,
                                        version,
                                        classifier: if classifier.len() == 0 {
                                            None
                                        } else {
                                            Some(classifier)
                                        },
                                        extension: match extension {
                                            Some(e) => e,
                                            None => "jar"@,
                                        },
                                    },
                                )
                            },
                        }
                    }
                },
            }
        },
    }
}

/// The file name of a coordinate's artifact: `artifact-version`, then
/// `-classifier` where there is one, then `.extension`.
pub open spec fn coordinate_file_name(c: CoordinateText) -> Seq<char> {
    c.artifact + seq!['-'] + c.version + match c.classifier {
        Some(classifier) => seq!['-'] + classifier,
        None => Seq::empty(),
    } + seq!['.'] + c.extension
}

/// Where a coordinate's artifact lies below a repository's base: the group
/// with `/` for each `.`, the artifact, the version and the file name, joined
/// by `/`.
pub open spec fn coordinate_path(c: CoordinateText) -> Seq<char> {
    replace_char(c.group, '.', '/') + seq!['/'] + c.artifact + seq!['/'] + c.version + seq!['/']
        + coordinate_file_name(c)
}

impl Coordinate {
    /// Reads a coordinate string; fails on a text that is no coordinate.
    pub fn parse(text: &str) -> (r: Result<Coordinate, Error>)
        ensures
            match r {
                Ok(c) => parse_coordinate(text@) == Some(c@) && c@.wf(),
                Err(e) => e == Error::MalformedCoordinate && parse_coordinate(text@) is None,
            },
    {
        let v = chars_of(text);
        let n = v.len();
        let group_end = find_char(&v, ':');
        if group_end == n {
            return Err(Error::MalformedCoordinate);
        }
        let rest1 = slice_from(&v, group_end + 1);
        let artifact_end = find_char(&rest1, ':');
        if artifact_end == rest1.len() {
            return Err(Error::MalformedCoordinate);
        }
        let rest2 = slice_from(&rest1, artifact_end + 1);
        let version_end = find_char(&rest2, ':');
        if group_end == 0 || artifact_end == 0 || version_end == 0 {
            return Err(Error::MalformedCoordinate);
        }
        let group = string_of_range(&v, 0, group_end);
        let artifact = string_of_range(&rest1, 0, artifact_end);
        let version = string_of_range(&rest2, 0, version_end);
        if version_end == rest2.len() {
            assert(rest2@.subrange(0, version_end as int) == rest2@);
            return Ok(
                Coordinate {
                    group,
                    artifact,
                    version,
                    classifier: None,
                    extension: "jar".to_string(),
                },
            );
        }
        let remainder = slice_from(&rest2, version_end + 1);
        let classifier_end = find_char(&remainder, '@');
        let classifier = if classifier_end == 0 {
            None
        } else {
            Some(string_of_range(&remainder, 0, classifier_end))
        };
        let extension = if classifier_end == remainder.len() {
            assert(remainder@.subrange(0, classifier_end as int) == remainder@);
            "jar".to_string()
        } else {
            string_of_range(&remainder, classifier_end + 1, remainder.len())
        };
        Ok(Coordinate { group, artifact, version, classifier, extension })
    }

    /// The repository-relative path of the artifact.
    pub fn path(&self) -> (p: String)
        ensures
            p@ == coordinate_path(self@),
    {
        let group = chars_of(self.group.as_str());
        let mut out: Vec<char> = Vec::new();
        let mut i: usize = 0;
        while i < group.len()
            invariant
                i <= group.len(),
                out@ == replace_char(group@, '.', '/').take(i as int),
            decreases group.len() - i,
        {
            let c = group[i];
            out.push(if c == '.' { '/' } else { c });
            i += 1;
        }
        let artifact = chars_of(self.artifact.as_str());
        let version = chars_of(self.version.as_str());
        let extension = chars_of(self.extension.as_str());
        out.push('/');
        push_all(&mut out, &artifact);
        out.push('/');
        push_all(&mut out, &version);
        out.push('/');
        push_all(&mut out, &artifact);
        out.push('-');
        push_all(&mut out, &version);
        match &self.classifier {
            Some(classifier) => {
                let classifier = chars_of(classifier.as_str());
                out.push('-');
                push_all(&mut out, &classifier);
            },
            None => {},
        }
        out.push('.');
        push_all(&mut out, &extension);
        let p = string_of(&out);
        p
    }
}

/// The path that a coordinate string stands for.
pub open spec fn path_of_text(text: Seq<char>) -> Option<Seq<char>> {
    match parse_coordinate(text) {
        Some(c) => Some(coordinate_path(c)),
        None => None,
    }
}

/// The directory of an artifact: the group with `/` for each `.`, the
/// artifact and the version, each with a `/` behind it.
pub open spec fn directory(group: Seq<char>, artifact: Seq<char>, version: Seq<char>) -> Seq<char> {
    replace_char(group, '.', '/') + seq!['/'] + artifact + seq!['/'] + version + seq!['/']
}

/// Whether the three parts can stand as group, artifact and version: none is
/// empty, and group and artifact hold no `:`.
pub open spec fn are_parts(group: Seq<char>, artifact: Seq<char>, version: Seq<char>) -> bool {
    &&& group.len() > 0
    &&& artifact.len() > 0
    &&& version.len() > 0
    &&& !group.contains(':')
    &&& !artifact.contains(':')
}

/// `group:artifact:version` reads as these three parts and lies at
/// `group/artifact/version/artifact-version.jar`. An `@` in the version
/// belongs to the version.
pub proof fn lemma_path_of_three_parts(group: Seq<char>, artifact: Seq<char>, version: Seq<char>)
    requires
        are_parts(group, artifact, version),
        !version.contains(':'),
    ensures
        parse_coordinate(group + seq![':'] + artifact + seq![':'] + version) == Some(
            CoordinateText { group, artifact, version, classifier: None, extension: "jar"@ },
        ),
        path_of_text(group + seq![':'] + artifact + seq![':'] + version) == Some(
            directory(group, artifact, version) + artifact + seq!['-'] + version + seq!['.']
                + "jar"@,
        ),
{
    let text = group + seq![':'] + artifact + seq![':'] + version;
    let rest = artifact + seq![':'] + version;
    assert(text =~= group + seq![':'] + rest);
    lemma_split_first(group, ':', rest);
    lemma_split_first(artifact, ':', version);
    lemma_split_first_none(version, ':');
}

/// `group:artifact:version:classifier` lies at
/// `group/artifact/version/artifact-version-classifier.jar`.
pub proof fn lemma_path_with_classifier(
    group: Seq<char>,
    artifact: Seq<char>,
    version: Seq<char>,
    classifier: Seq<char>,
)
    requires
        are_parts(group, artifact, version),
        !version.contains(':'),
        classifier.len() > 0,
        !classifier.contains('@'),
    ensures
        parse_coordinate(
            group + seq![':'] + artifact + seq![':'] + version + seq![':'] + classifier,
        ) == Some(
            CoordinateText {
                group,
                artifact,
                version,
                classifier: Some(classifier),
                extension: "jar"@,
            },
        ),
        path_of_text(group + seq![':'] + artifact + seq![':'] + version + seq![':'] + classifier)
            == Some(
            directory(group, artifact, version) + artifact + seq!['-'] + version + seq!['-']
                + classifier + seq!['.'] + "jar"@,
        ),
{
    let text = group + seq![':'] + artifact + seq![':'] + version + seq![':'] + classifier;
    let rest2 = version + seq![':'] + classifier;
    let rest1 = artifact + seq![':'] + rest2;
    assert(text =~= group + seq![':'] + rest1);
    lemma_split_first(group, ':', rest1);
    lemma_split_first(artifact, ':', rest2);
    lemma_split_first(version, ':', classifier);
    lemma_split_first_none(classifier, '@');
}

/// `group:artifact:version:classifier@extension` lies at
/// `group/artifact/version/artifact-version-classifier.extension`.
pub proof fn lemma_path_with_classifier_and_extension(
    group: Seq<char>,
    artifact: Seq<char>,
    version: Seq<char>,
    classifier: Seq<char>,
    extension: Seq<char>,
)
    requires
        are_parts(group, artifact, version),
        !version.contains(':'),
        classifier.len() > 0,
        !classifier.contains('@'),
    ensures
        parse_coordinate(
            group + seq![':'] + artifact + seq![':'] + version + seq![':'] + classifier
                + seq!['@'] + extension,
        ) == Some(
            CoordinateText { group, artifact, version, classifier: Some(classifier), extension },
        ),
        path_of_text(
            group + seq![':'] + artifact + seq![':'] + version + seq![':'] + classifier
                + seq!['@'] + extension,
        ) == Some(
            directory(group, artifact, version) + artifact + seq!['-'] + version + seq!['-']
                + classifier + seq!['.'] + extension,
        ),
{
    let text = group + seq![':'] + artifact + seq![':'] + version + seq![':'] + classifier
        + seq!['@'] + extension;
    let remainder = classifier + seq!['@'] + extension;
    let rest2 = version + seq![':'] + remainder;
    let rest1 = artifact + seq![':'] + rest2;
    assert(text =~= group + seq![':'] + rest1);
    lemma_split_first(group, ':', rest1);
    lemma_split_first(artifact, ':', rest2);
    lemma_split_first(version, ':', remainder);
    lemma_split_first(classifier, '@', extension);
}

/// `group:artifact:version:@extension`, with nothing before the `@`, names no
/// classifier and lies at `group/artifact/version/artifact-version.extension`.
pub proof fn lemma_path_with_extension(
    group: Seq<char>,
    artifact: Seq<char>,
    version: Seq<char>,
    extension: Seq<char>,
)
    requires
        are_parts(group, artifact, version),
        !version.contains(':'),
    ensures
        parse_coordinate(
            group + seq![':'] + artifact + seq![':'] + version + seq![':'] + seq!['@']
                + extension,
        ) == Some(CoordinateText { group, artifact, version, classifier: None, extension }),
        path_of_text(
            group + seq![':'] + artifact + seq![':'] + version + seq![':'] + seq!['@']
                + extension,
        ) == Some(
            directory(group, artifact, version) + artifact + seq!['-'] + version + seq!['.']
                + extension,
        ),
{
    let text = group + seq![':'] + artifact + seq![':'] + version + seq![':'] + seq!['@']
        + extension;
    let remainder = Seq::<char>::empty() + seq!['@'] + extension;
    let rest2 = version + seq![':'] + remainder;
    let rest1 = artifact + seq![':'] + rest2;
    assert(text =~= group + seq![':'] + rest1);
    lemma_split_first(group, ':', rest1);
    lemma_split_first(artifact, ':', rest2);
    lemma_split_first(version, ':', remainder);
    lemma_split_first(Seq::<char>::empty(), '@', extension);
}

/// `group:artifact:version@extension` has no fourth part, so that `@` and
/// what follows it belong to the version, and the extension is `jar`.
pub proof fn lemma_path_of_version_with_at(
    group: Seq<char>,
    artifact: Seq<char>,
    version: Seq<char>,
    extension: Seq<char>,
)
    requires
        are_parts(group, artifact, version),
        !version.contains(':'),
        !extension.contains(':'),
    ensures
        path_of_text(group + seq![':'] + artifact + seq![':'] + version + seq!['@'] + extension)
            == Some(
            directory(group, artifact, version + seq!['@'] + extension) + artifact + seq!['-']
                + (version + seq!['@'] + extension) + seq!['.'] + "jar"@,
        ),
{
    let whole = version + seq!['@'] + extension;
    assert(!whole.contains(':')) by {
        if whole.contains(':') {
            let i = choose|i: int| 0 <= i < whole.len() && whole[i] == ':';
            if i < version.len() {
                assert(version[i] == ':');
            } else if i > version.len() {
                assert(extension[i - version.len() - 1] == ':');
            }
        }
    }
    assert(group + seq![':'] + artifact + seq![':'] + version + seq!['@'] + extension =~= group
        + seq![':'] + artifact + seq![':'] + whole);
    lemma_path_of_three_parts(group, artifact, whole);
}

/// A text with fewer than two `:` is no coordinate.
pub proof fn lemma_parse_needs_two_separators(text: Seq<char>)
    requires
        forall|i: int, j: int| 0 <= i < j < text.len() ==> !(text[i] == ':' && text[j] == ':'),
    ensures
        parse_coordinate(text) is None,
{
    let flags = crate::text::char_flags(text, ':');
    crate::text::lemma_first_true(flags);
    let i = crate::text::index_of_char(text, ':');
    if i < text.len() {
        let rest = text.skip(i + 1);
        assert forall|j: int| 0 <= j < rest.len() implies rest[j] != ':' by {
            assert(rest[j] == text[i + 1 + j]);
        }
        lemma_split_first_none(rest, ':');
    }
}

} // verus!
