//! The ways in which a run can fail.

use vstd::prelude::*;

verus! {

/// One of the two manifest documents.
#[derive(Clone, Copy, Debug, PartialEq, Eq, Structural)]
pub enum Document {
    /// The launcher's version document.
    VersionJson,
    /// The installer's profile document.
    InstallProfile,
}

/// A member of a manifest document that the patcher reads.
#[derive(Clone, Copy, Debug, PartialEq, Eq, Structural)]
pub enum Field {
    /// `arguments`, with its `game` and `jvm` lists.
    Arguments,
    /// `inheritsFrom`, the game version of a version document.
    InheritsFrom,
    /// `libraries`.
    Libraries,
    /// `data`.
    Data,
    /// `minecraft`, the game version of an install profile.
    Minecraft,
    /// `processors`.
    Processors,
}

/// Something the patcher looks for in a vendor manifest.
#[derive(Clone, Copy, Debug, PartialEq, Eq, Structural)]
pub enum Token {
    /// A member of the document.
    Member(Field),
    /// The game argument `--fml.fmlVersion`.
    FmlVersion,
    /// The game argument that follows `--fml.fmlVersion`.
    FmlVersionValue,
    /// The game argument `--launchTarget`.
    LaunchTarget,
    /// The game argument that follows `--launchTarget`.
    LaunchTargetValue,
    /// The JVM argument that begins with `-DignoreList=`.
    IgnoreList,
    /// The JVM argument `-Djava.net.preferIPv6Addresses=system`.
    PreferIpv6,
    /// The processor that runs the binary patcher.
    BinaryPatcher,
}

/// Why a run was abandoned. No failure is recovered from: the first one ends
/// the run, and nothing is written.
#[derive(Clone, Copy, Debug, PartialEq, Eq, Structural)]
pub enum Error {
    /// A library name has fewer than three `:`-separated parts, or an empty
    /// group, artifact or version.
    MalformedCoordinate,
    /// The top level of a manifest is not a JSON object.
    NotAnObject(Document),
    /// A member of a manifest is there but does not have the expected shape.
    WrongType(Field),
    /// The vendor manifest lacks something the patcher relies on.
    TokenNotFound(Token),
    /// A server answered with this status, which is not a success.
    NetworkError(u16),
    /// The loader metadata has no usable `libraries` list.
    MalformedMetadata,
    /// The size of an artifact is neither declared nor countable.
    LengthUnavailable,
}

/// The decimal digit of a value below ten.
pub open spec fn digit(d: nat) -> char {
    if d == 0 {
        '0'
    } else if d == 1 {
        '1'
    } else if d == 2 {
        '2'
    } else if d == 3 {
        '3'
    } else if d == 4 {
        '4'
    } else if d == 5 {
        '5'
    } else if d == 6 {
        '6'
    } else if d == 7 {
        '7'
    } else if d == 8 {
        '8'
    } else {
        '9'
    }
}

/// A number in decimal digits, without leading zeros.
pub open spec fn decimal(n: nat) -> Seq<char>
    decreases n,
{
    if n < 10 {
        seq![digit(n)]
    } else {
        decimal(n / 10).push(digit(n % 10))
    }
}

/// Appends a number in decimal digits.
fn push_decimal(out: &mut String, n: u16)
    ensures
        final(out)@ == old(out)@ + decimal(n as nat),
    decreases n,
{
    if n >= 10 {
        push_decimal(out, n / 10);
    }
    let d: u16 = n % 10;
    let c = if d == 0 {
        '0'
    } else if d == 1 {
        '1'
    } else if d == 2 {
        '2'
    } else if d == 3 {
        '3'
    } else if d == 4 {
        '4'
    } else if d == 5 {
        '5'
    } else if d == 6 {
        '6'
    } else if d == 7 {
        '7'
    } else if d == 8 {
        '8'
    } else {
        '9'
    };
    out.push(c);
}

impl Document {
    /// The file name that the document goes by.
    pub open spec fn name(self) -> Seq<char> {
        match self {
            Document::VersionJson => "version.json"@,
            Document::InstallProfile => "install_profile.json"@,
        }
    }

    /// The file name that the document goes by.
    pub fn file_name(&self) -> (r: &'static str)
        ensures
            r@ == self.name(),
    {
        match self {
            Document::VersionJson => "version.json",
            Document::InstallProfile => "install_profile.json",
        }
    }
}

impl Field {
    /// The name of the member.
    pub open spec fn name(self) -> Seq<char> {
        match self {
            Field::Arguments => "arguments"@,
            Field::InheritsFrom => "inheritsFrom"@,
            Field::Libraries => "libraries"@,
            Field::Data => "data"@,
            Field::Minecraft => "minecraft"@,
            Field::Processors => "processors"@,
        }
    }

    /// The name of the member.
    pub fn member_name(&self) -> (r: &'static str)
        ensures
            r@ == self.name(),
    {
        match self {
            Field::Arguments => "arguments",
            Field::InheritsFrom => "inheritsFrom",
            Field::Libraries => "libraries",
            Field::Data => "data",
            Field::Minecraft => "minecraft",
            Field::Processors => "processors",
        }
    }
}

impl Token {
    /// What is missing, in words.
    pub open spec fn description(self) -> Seq<char> {
        match self {
            Token::Member(field) => field.name(),
            Token::FmlVersion => "--fml.fmlVersion in the game arguments"@,
            Token::FmlVersionValue => "a game argument after --fml.fmlVersion"@,
            Token::LaunchTarget => "--launchTarget in the game arguments"@,
            Token::LaunchTargetValue => "a game argument after --launchTarget"@,
            Token::IgnoreList => "-DignoreList= in the jvm arguments"@,
            Token::PreferIpv6 => "-Djava.net.preferIPv6Addresses=system in the jvm arguments"@,
            Token::BinaryPatcher => "binarypatcher in the processors"@,
        }
    }

    /// What is missing, in words.
    pub fn describe(&self) -> (r: &'static str)
        ensures
            r@ == self.description(),
    {
        match self {
            Token::Member(field) => field.member_name(),
            Token::FmlVersion => "--fml.fmlVersion in the game arguments",
            Token::FmlVersionValue => "a game argument after --fml.fmlVersion",
            Token::LaunchTarget => "--launchTarget in the game arguments",
            Token::LaunchTargetValue => "a game argument after --launchTarget",
            Token::IgnoreList => "-DignoreList= in the jvm arguments",
            Token::PreferIpv6 => "-Djava.net.preferIPv6Addresses=system in the jvm arguments",
            Token::BinaryPatcher => "binarypatcher in the processors",
        }
    }
}

impl Error {
    /// The one line that tells a person what went wrong.
    pub open spec fn message_text(self) -> Seq<char> {
        match self {
            Error::MalformedCoordinate => "Huh? A library name isn't a coordinate?"@,
            Error::NotAnObject(document) => "Huh? "@ + document.name() + " isn't an object?"@,
            Error::WrongType(field) => "Huh? "@ + field.name() + " isn't of the expected type?"@,
            Error::TokenNotFound(token) => "Huh? No "@ + token.description() + "?"@,
            Error::NetworkError(status) => "Huh? The server answered with status "@ + decimal(
                status as nat,
            ) + "?"@,
            Error::MalformedMetadata => "Huh? No usable libraries in the loader's metadata?"@,
            Error::LengthUnavailable => "Huh? No length of the artifact?"@,
        }
    }

    /// The one line that tells a person what went wrong.
    pub fn message(&self) -> (r: String)
        ensures
            r@ == self.message_text(),
    {
        let mut r = String::new();
        match self {
            Error::MalformedCoordinate => {
                r.append("Huh? A library name isn't a coordinate?");
            },
            Error::NotAnObject(document) => {
                r.append("Huh? ");
                r.append(document.file_name());
                r.append(" isn't an object?");
            },
            Error::WrongType(field) => {
                r.append("Huh? ");
                r.append(field.member_name());
                r.append(" isn't of the expected type?");
            },
            Error::TokenNotFound(token) => {
                r.append("Huh? No ");
                r.append(token.describe());
                r.append("?");
            },
            Error::NetworkError(status) => {
                r.append("Huh? The server answered with status ");
                push_decimal(&mut r, *status);
                r.append("?");
            },
            Error::MalformedMetadata => {
                r.append("Huh? No usable libraries in the loader's metadata?");
            },
            Error::LengthUnavailable => {
                r.append("Huh? No length of the artifact?");
            },
        }
        r
    }
}

} // verus!
