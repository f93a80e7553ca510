use pillow_installer::error::{Document, Error, Field, Token};

#[test]
fn messages_name_what_went_wrong() {
    assert_eq!(Error::MalformedCoordinate.message(), "Huh? A library name isn't a coordinate?");
    assert_eq!(
        Error::NotAnObject(Document::VersionJson).message(),
        "Huh? version.json isn't an object?"
    );
    assert_eq!(
        Error::NotAnObject(Document::InstallProfile).message(),
        "Huh? install_profile.json isn't an object?"
    );
    assert_eq!(
        Error::WrongType(Field::InheritsFrom).message(),
        "Huh? inheritsFrom isn't of the expected type?"
    );
    assert_eq!(Error::TokenNotFound(Token::Member(Field::Libraries)).message(), "Huh? No libraries?");
    assert_eq!(
        Error::TokenNotFound(Token::FmlVersion).message(),
        "Huh? No --fml.fmlVersion in the game arguments?"
    );
    assert_eq!(
        Error::TokenNotFound(Token::PreferIpv6).message(),
        "Huh? No -Djava.net.preferIPv6Addresses=system in the jvm arguments?"
    );
    assert_eq!(
        Error::TokenNotFound(Token::BinaryPatcher).message(),
        "Huh? No binarypatcher in the processors?"
    );
    assert_eq!(
        Error::MalformedMetadata.message(),
        "Huh? No usable libraries in the loader's metadata?"
    );
    assert_eq!(Error::LengthUnavailable.message(), "Huh? No length of the artifact?");
}

#[test]
fn status_is_written_in_decimal() {
    assert_eq!(Error::NetworkError(404).message(), "Huh? The server answered with status 404?");
    assert_eq!(Error::NetworkError(0).message(), "Huh? The server answered with status 0?");
    assert_eq!(Error::NetworkError(7).message(), "Huh? The server answered with status 7?");
    assert_eq!(Error::NetworkError(65535).message(), "Huh? The server answered with status 65535?");
    assert_eq!(Error::NetworkError(1000).message(), "Huh? The server answered with status 1000?");
}

#[test]
fn names_of_members() {
    assert_eq!(Field::Arguments.member_name(), "arguments");
    assert_eq!(Field::Data.member_name(), "data");
    assert_eq!(Field::Minecraft.member_name(), "minecraft");
    assert_eq!(Field::Processors.member_name(), "processors");
    assert_eq!(Document::VersionJson.file_name(), "version.json");
    assert_eq!(Token::LaunchTargetValue.describe(), "a game argument after --launchTarget");
}
