use pillow_installer::error::{Document, Error, Field, Token};
use pillow_installer::json::{Json, Number};
use pillow_installer::library::{
    Artifact, Download, FabricStyleLibrary, LibraryEntry, VanillaStyleLibrary,
};
use pillow_installer::version_json::{begin_version_json, create_version_json, finish_version_json};

fn text(s: &str) -> Json {
    Json::Text(s.to_string())
}

fn texts(list: &[&str]) -> Json {
    Json::Array(list.iter().map(|s| text(s)).collect())
}

fn object(members: Vec<(&str, Json)>) -> Json {
    Json::Object(members.into_iter().map(|(k, v)| (k.to_string(), v)).collect())
}

fn get<'a>(doc: &'a Json, key: &str) -> Option<&'a Json> {
    match doc {
        Json::Object(members) => members.iter().find(|(k, _)| k == key).map(|(_, v)| v),
        _ => None,
    }
}

fn fixture_with(game: Json, jvm: Json) -> Json {
    object(vec![
        ("id", text("neoforge-40.1.0")),
        ("time", text("2023-01-01T00:00:00+00:00")),
        ("arguments", object(vec![("game", game), ("jvm", jvm)])),
        ("inheritsFrom", text("1.20.1")),
        ("mainClass", text("cpw.mods.bootstraplauncher.BootstrapLauncher")),
        ("libraries", Json::Array(vec![object(vec![("name", text("x:y:1"))])])),
        ("weight", Json::Number(Number::Float(0x3ff8000000000000))),
    ])
}

fn fixture() -> Json {
    fixture_with(
        texts(&["--fml.fmlVersion", "40.1.0", "--launchTarget", "forgeclient"]),
        texts(&["-DignoreList=a,b", "-Djava.net.preferIPv6Addresses=system"]),
    )
}

fn reference(name: &str, url: Option<&str>) -> LibraryEntry {
    LibraryEntry::Reference(FabricStyleLibrary {
        name: name.to_string(),
        url: url.map(|u| u.to_string()),
    })
}

fn record(name: &str) -> LibraryEntry {
    LibraryEntry::Artifact(VanillaStyleLibrary {
        name: name.to_string(),
        downloads: Download {
            artifact: Artifact {
                sha1: "2aae6c35c94fcfb415dbe95f408b9ce91ee846ed".to_string(),
                size: 11,
                url: "https://r/p".to_string(),
                path: "p".to_string(),
            },
        },
    })
}

#[test]
fn minimal_fixture_is_patched() {
    let (doc, id) = create_version_json(fixture(), "P", "Q", &vec![]).unwrap();
    assert_eq!(id, "pillow-P+fml-40.1.0+quilt-loader-Q");
    assert_eq!(get(&doc, "id"), Some(&text("pillow-P+fml-40.1.0+quilt-loader-Q")));
    let arguments = get(&doc, "arguments").unwrap();
    assert_eq!(
        get(arguments, "game"),
        Some(&texts(&["--fml.fmlVersion", "40.1.0", "--launchTarget", "pillowclient"]))
    );
    assert_eq!(get(arguments, "jvm"), Some(&texts(&["-DignoreList=a,b,datafixerupper-"])));
}

#[test]
fn whole_patched_document() {
    let added = vec![record("a:b:1"), reference("net.pillowmc:intermediary2srg:1.20.1", None)];
    let (doc, _) = create_version_json(fixture(), "0.3.0", "0.20.2", &added).unwrap();
    let expected = object(vec![
        ("id", text("pillow-0.3.0+fml-40.1.0+quilt-loader-0.20.2")),
        ("time", text("2023-01-01T00:00:00+00:00")),
        (
            "arguments",
            object(vec![
                ("game", texts(&["--fml.fmlVersion", "40.1.0", "--launchTarget", "pillowclient"])),
                ("jvm", texts(&["-DignoreList=a,b,datafixerupper-"])),
            ]),
        ),
        ("inheritsFrom", text("1.20.1")),
        ("mainClass", text("cpw.mods.bootstraplauncher.BootstrapLauncher")),
        (
            "libraries",
            Json::Array(vec![
                object(vec![("name", text("x:y:1"))]),
                object(vec![
                    ("name", text("a:b:1")),
                    (
                        "downloads",
                        object(vec![(
                            "artifact",
                            object(vec![
                                ("sha1", text("2aae6c35c94fcfb415dbe95f408b9ce91ee846ed")),
                                ("size", Json::Number(Number::PosInt(11))),
                                ("url", text("https://r/p")),
                                ("path", text("p")),
                            ]),
                        )]),
                    ),
                ]),
                object(vec![("name", text("net.pillowmc:intermediary2srg:1.20.1"))]),
            ]),
        ),
        ("weight", Json::Number(Number::Float(0x3ff8000000000000))),
    ]);
    assert_eq!(doc, expected);
}

#[test]
fn version_draft_names_the_game_version() {
    let draft = begin_version_json(fixture(), "P", "Q").ok().unwrap();
    assert_eq!(draft.game_version, "1.20.1");
    assert_eq!(draft.id, "pillow-P+fml-40.1.0+quilt-loader-Q");
    let (doc, id) = finish_version_json(draft, &vec![]).unwrap();
    assert_eq!(id, "pillow-P+fml-40.1.0+quilt-loader-Q");
    assert_eq!(Ok((doc, id)), create_version_json(fixture(), "P", "Q", &vec![]));
}

#[test]
fn id_is_added_where_there_was_none() {
    let doc = object(vec![
        (
            "arguments",
            object(vec![
                ("jvm", texts(&["-Djava.net.preferIPv6Addresses=system", "-DignoreList="])),
                ("game", texts(&["--launchTarget", "x", "--fml.fmlVersion", "47"])),
                ("other", Json::Null),
            ]),
        ),
        ("inheritsFrom", text("1.20")),
        ("libraries", Json::Array(vec![])),
    ]);
    let (doc, id) = create_version_json(doc, "1", "2", &vec![]).unwrap();
    assert_eq!(id, "pillow-1+fml-47+quilt-loader-2");
    assert_eq!(
        doc,
        object(vec![
            (
                "arguments",
                object(vec![
                    ("game", texts(&["--launchTarget", "pillowclient", "--fml.fmlVersion", "47"])),
                    ("jvm", texts(&["-DignoreList=,datafixerupper-"])),
                ]),
            ),
            ("inheritsFrom", text("1.20")),
            ("libraries", Json::Array(vec![])),
            ("id", text("pillow-1+fml-47+quilt-loader-2")),
        ])
    );
}

#[test]
fn only_the_first_of_each_token_counts() {
    let doc = fixture_with(
        texts(&["--fml.fmlVersion", "1", "--fml.fmlVersion", "2", "--launchTarget", "a", "--launchTarget", "b"]),
        texts(&[
            "-Djava.net.preferIPv6Addresses=system",
            "-DignoreList=x",
            "-DignoreList=y",
            "-Djava.net.preferIPv6Addresses=system",
        ]),
    );
    let (doc, id) = create_version_json(doc, "P", "Q", &vec![]).unwrap();
    assert_eq!(id, "pillow-P+fml-1+quilt-loader-Q");
    let arguments = get(&doc, "arguments").unwrap();
    assert_eq!(
        get(arguments, "game"),
        Some(&texts(&[
            "--fml.fmlVersion",
            "1",
            "--fml.fmlVersion",
            "2",
            "--launchTarget",
            "pillowclient",
            "--launchTarget",
            "b"
        ]))
    );
    assert_eq!(
        get(arguments, "jvm"),
        Some(&texts(&["-DignoreList=x,datafixerupper-", "-DignoreList=y", "-Djava.net.preferIPv6Addresses=system"]))
    );
}

#[test]
fn version_not_an_object() {
    assert_eq!(
        create_version_json(Json::Array(vec![]), "P", "Q", &vec![]),
        Err(Error::NotAnObject(Document::VersionJson))
    );
    assert_eq!(
        create_version_json(text("x"), "P", "Q", &vec![]),
        Err(Error::NotAnObject(Document::VersionJson))
    );
}

#[test]
fn arguments_missing_or_mistyped() {
    assert_eq!(
        create_version_json(object(vec![("inheritsFrom", text("1"))]), "P", "Q", &vec![]),
        Err(Error::TokenNotFound(Token::Member(Field::Arguments)))
    );
    assert_eq!(
        create_version_json(object(vec![("arguments", text("x"))]), "P", "Q", &vec![]),
        Err(Error::WrongType(Field::Arguments))
    );
    assert_eq!(
        create_version_json(
            object(vec![("arguments", object(vec![("game", texts(&[]))]))]),
            "P",
            "Q",
            &vec![]
        ),
        Err(Error::WrongType(Field::Arguments))
    );
    assert_eq!(
        create_version_json(
            fixture_with(Json::Array(vec![text("--fml.fmlVersion"), Json::Null]), texts(&[])),
            "P",
            "Q",
            &vec![]
        ),
        Err(Error::WrongType(Field::Arguments))
    );
}

fn error_of(game: &[&str], jvm: &[&str]) -> Option<Error> {
    create_version_json(fixture_with(texts(game), texts(jvm)), "P", "Q", &vec![]).err()
}

#[test]
fn missing_tokens() {
    let jvm = ["-DignoreList=a,b", "-Djava.net.preferIPv6Addresses=system"];
    assert_eq!(
        error_of(&["--launchTarget", "forgeclient"], &jvm),
        Some(Error::TokenNotFound(Token::FmlVersion))
    );
    assert_eq!(
        error_of(&["--launchTarget", "forgeclient", "--fml.fmlVersion"], &jvm),
        Some(Error::TokenNotFound(Token::FmlVersionValue))
    );
    assert_eq!(
        error_of(&["--fml.fmlVersion", "40.1.0"], &jvm),
        Some(Error::TokenNotFound(Token::LaunchTarget))
    );
    assert_eq!(
        error_of(&["--fml.fmlVersion", "40.1.0", "--launchTarget"], &jvm),
        Some(Error::TokenNotFound(Token::LaunchTargetValue))
    );
    let game = ["--fml.fmlVersion", "40.1.0", "--launchTarget", "forgeclient"];
    assert_eq!(
        error_of(&game, &["-Djava.net.preferIPv6Addresses=system"]),
        Some(Error::TokenNotFound(Token::IgnoreList))
    );
    assert_eq!(error_of(&game, &["-DignoreList=a,b"]), Some(Error::TokenNotFound(Token::PreferIpv6)));
    assert_eq!(
        error_of(&game, &["-DignoreList=a,b", "-Djava.net.preferIPv6Addresses=systems"]),
        Some(Error::TokenNotFound(Token::PreferIpv6))
    );
    assert_eq!(error_of(&[], &[]), Some(Error::TokenNotFound(Token::FmlVersion)));
}

#[test]
fn inherits_from_missing_or_mistyped() {
    let arguments = object(vec![
        ("game", texts(&["--fml.fmlVersion", "40.1.0", "--launchTarget", "forgeclient"])),
        ("jvm", texts(&["-DignoreList=a,b", "-Djava.net.preferIPv6Addresses=system"])),
    ]);
    assert_eq!(
        create_version_json(
            object(vec![("arguments", arguments), ("libraries", Json::Array(vec![]))]),
            "P",
            "Q",
            &vec![]
        ),
        Err(Error::TokenNotFound(Token::Member(Field::InheritsFrom)))
    );
    let arguments = object(vec![
        ("game", texts(&["--fml.fmlVersion", "40.1.0", "--launchTarget", "forgeclient"])),
        ("jvm", texts(&["-DignoreList=a,b", "-Djava.net.preferIPv6Addresses=system"])),
    ]);
    assert_eq!(
        create_version_json(
            object(vec![
                ("arguments", arguments),
                ("inheritsFrom", Json::Number(Number::PosInt(1))),
                ("libraries", Json::Array(vec![]))
            ]),
            "P",
            "Q",
            &vec![]
        ),
        Err(Error::WrongType(Field::InheritsFrom))
    );
}

#[test]
fn libraries_missing_or_mistyped() {
    let arguments = || {
        object(vec![
            ("game", texts(&["--fml.fmlVersion", "40.1.0", "--launchTarget", "forgeclient"])),
            ("jvm", texts(&["-DignoreList=a,b", "-Djava.net.preferIPv6Addresses=system"])),
        ])
    };
    assert_eq!(
        create_version_json(
            object(vec![("arguments", arguments()), ("inheritsFrom", text("1.20.1"))]),
            "P",
            "Q",
            &vec![]
        ),
        Err(Error::TokenNotFound(Token::Member(Field::Libraries)))
    );
    assert_eq!(
        create_version_json(
            object(vec![
                ("arguments", arguments()),
                ("inheritsFrom", text("1.20.1")),
                ("libraries", object(vec![]))
            ]),
            "P",
            "Q",
            &vec![]
        ),
        Err(Error::WrongType(Field::Libraries))
    );
}

#[test]
fn two_version_runs_on_the_same_input_agree() {
    let added = || vec![record("a:b:1"), reference("c:d:2", Some("https://r/"))];
    assert_eq!(
        create_version_json(fixture(), "P", "Q", &added()),
        create_version_json(fixture(), "P", "Q", &added())
    );
}

#[test]
fn a_patched_document_is_not_patched_again() {
    let (doc, _) = create_version_json(fixture(), "P", "Q", &vec![]).unwrap();
    assert_eq!(
        create_version_json(doc, "P", "Q", &vec![]),
        Err(Error::TokenNotFound(Token::PreferIpv6))
    );
}

#[test]
fn version_draft_asks_for_the_profile_libraries_with_the_bridge() {
    let draft = begin_version_json(fixture(), "0.3.0", "0.14.21").ok().unwrap();
    assert_eq!(
        draft.metadata_url("0.14.21"),
        "https://meta.fabricmc.net/v2/versions/loader/1.20.1/0.14.21/profile/json"
    );
    let fetched = vec![
        FabricStyleLibrary { name: "org.ow2.asm:asm:9.3".to_string(), url: None },
        FabricStyleLibrary { name: "a:b:1".to_string(), url: Some("https://r/".to_string()) },
    ];
    assert_eq!(
        draft.libraries(fetched, "0.3.0"),
        vec![
            FabricStyleLibrary { name: "a:b:1".to_string(), url: Some("https://r/".to_string()) },
            FabricStyleLibrary { name: "net.pillowmc:intermediary2srg:1.20.1".to_string(), url: None },
            FabricStyleLibrary {
                name: "com.github.PillowMC:pillow:0.3.0-fabric".to_string(),
                url: Some("https://jitpack.io/".to_string())
            },
        ]
    );
}
