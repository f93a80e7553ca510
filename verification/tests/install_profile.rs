use pillow_installer::error::{Document, Error, Field, Token};
use pillow_installer::install_profile::{
    begin_install_profile, create_install_profile, finish_install_profile, make_extract_step,
    make_mappinggen_step, make_parents_step, mapping_io, mappinggen, ProcessorStep,
};
use pillow_installer::json::{Json, Number};
use pillow_installer::library::{
    Artifact, Download, FabricStyleLibrary, LibraryEntry, VanillaStyleLibrary,
};

fn text(s: &str) -> Json {
    Json::Text(s.to_string())
}

fn texts(list: &[&str]) -> Json {
    Json::Array(list.iter().map(|s| text(s)).collect())
}

fn object(members: Vec<(&str, Json)>) -> Json {
    Json::Object(members.into_iter().map(|(k, v)| (k.to_string(), v)).collect())
}

fn get<'a>(doc: &'a Json, key: &str) -> Option<&'a Json> {
    match doc {
        Json::Object(members) => members.iter().find(|(k, _)| k == key).map(|(_, v)| v),
        _ => None,
    }
}

fn items(value: &Json) -> &Vec<Json> {
    match value {
        Json::Array(items) => items,
        _ => panic!("no array"),
    }
}

fn step(jar: &str) -> Json {
    object(vec![("jar", text(jar)), ("classpath", texts(&[])), ("args", texts(&["--x"]))])
}

fn processors() -> Json {
    Json::Array(vec![
        step("net.neoforged.installertools:installertools:2.1.2"),
        step("net.neoforged.installertools:binarypatcher:2.1.2"),
        step("net.neoforged.installertools:jarsplitter:2.1.2"),
    ])
}

fn fixture_with(processors: Json) -> Json {
    object(vec![
        ("spec", Json::Number(Number::PosInt(1))),
        ("profile", text("NeoForge")),
        ("version", text("neoforge-47.1.0")),
        ("minecraft", text("1.20.1")),
        ("mirrorList", text("https://mirrors.example/list.json")),
        (
            "data",
            object(vec![
                ("MAPPINGS", object(vec![("client", text("[a]"))])),
                ("BINPATCH", object(vec![("client", text("/data/client.lzma"))])),
            ]),
        ),
        ("processors", processors),
        ("libraries", Json::Array(vec![object(vec![("name", text("x:y:1"))])])),
    ])
}

fn fixture() -> Json {
    fixture_with(processors())
}

fn record(name: &str) -> LibraryEntry {
    LibraryEntry::Artifact(VanillaStyleLibrary {
        name: name.to_string(),
        downloads: Download {
            artifact: Artifact {
                sha1: "2aae6c35c94fcfb415dbe95f408b9ce91ee846ed".to_string(),
                size: 11,
                url: "https://r/p".to_string(),
                path: "p".to_string(),
            },
        },
    })
}

fn is_patcher(step: &Json) -> bool {
    match get(step, "jar") {
        Some(Json::Text(jar)) => jar.starts_with("net.neoforged.installertools:binarypatcher"),
        _ => false,
    }
}

#[test]
fn header_is_set() {
    let doc = create_install_profile(fixture(), "pillow-1", "ICON", &vec![]).unwrap();
    assert_eq!(get(&doc, "profile"), Some(&text("Pillow")));
    assert_eq!(get(&doc, "icon"), Some(&text("ICON")));
    assert_eq!(get(&doc, "welcome"), Some(&text("Welcome to the simple Pillow installer")));
    assert_eq!(get(&doc, "version"), Some(&text("pillow-1")));
    assert_eq!(get(&doc, "mirrorList"), None);
    assert_eq!(get(&doc, "spec"), Some(&Json::Number(Number::PosInt(1))));
    assert_eq!(get(&doc, "minecraft"), Some(&text("1.20.1")));
}

#[test]
fn binpatch_leaves_data() {
    let doc = create_install_profile(fixture(), "pillow-1", "ICON", &vec![]).unwrap();
    assert_eq!(
        get(&doc, "data"),
        Some(&object(vec![("MAPPINGS", object(vec![("client", text("[a]"))]))]))
    );
}

#[test]
fn processors_grow_by_two_and_lose_the_patcher() {
    let doc = create_install_profile(fixture(), "pillow-1", "ICON", &vec![]).unwrap();
    let steps = items(get(&doc, "processors").unwrap());
    assert_eq!(steps.len(), items(&processors()).len() + 2);
    assert!(!steps.iter().any(is_patcher));
    assert_eq!(steps[0], step("net.neoforged.installertools:installertools:2.1.2"));
    assert_eq!(steps[1], step("net.neoforged.installertools:jarsplitter:2.1.2"));
    assert_eq!(steps[2], make_extract_step("1.20.1").to_json());
    assert_eq!(steps[3], make_parents_step("1.20.1").to_json());
    assert_eq!(steps[4], make_mappinggen_step("1.20.1").to_json());
}

#[test]
fn only_the_first_patcher_leaves() {
    let doc = fixture_with(Json::Array(vec![
        step("net.neoforged.installertools:binarypatcher:1"),
        object(vec![("jar", Json::Null)]),
        text("net.neoforged.installertools:binarypatcher:1"),
        step("net.neoforged.installertools:binarypatcher:2"),
    ]));
    let doc = create_install_profile(doc, "pillow-1", "ICON", &vec![]).unwrap();
    let steps = items(get(&doc, "processors").unwrap());
    assert_eq!(steps.len(), 6);
    assert_eq!(steps[0], object(vec![("jar", Json::Null)]));
    assert_eq!(steps[1], text("net.neoforged.installertools:binarypatcher:1"));
    assert_eq!(steps[2], step("net.neoforged.installertools:binarypatcher:2"));
}

#[test]
fn libraries_get_tools_and_entries() {
    let doc = create_install_profile(fixture(), "pillow-1", "ICON", &vec![record("a:b:1")]).unwrap();
    let libraries = items(get(&doc, "libraries").unwrap());
    assert_eq!(libraries.len(), 4);
    assert_eq!(libraries[0], object(vec![("name", text("x:y:1"))]));
    assert_eq!(libraries[1], mapping_io().to_json());
    assert_eq!(libraries[2], mappinggen().to_json());
    assert_eq!(libraries[3], record("a:b:1").to_json());
}

#[test]
fn tool_records() {
    let a = mapping_io().downloads.artifact;
    assert_eq!(a.sha1, "bc93c07f23c01aa65ef9bd42e4d33d1c361ca122");
    assert_eq!(a.size, 158891);
    assert_eq!(a.url, "https://maven.fabricmc.net/net/fabricmc/mapping-io/0.5.1/mapping-io-0.5.1.jar");
    assert_eq!(a.path, "net/fabricmc/mapping-io/0.5.1/mapping-io-0.5.1.jar");
    assert_eq!(mapping_io().name, "net.fabricmc:mapping-io:0.5.1@jar");
    let a = mappinggen().downloads.artifact;
    assert_eq!(a.sha1, "6c926290d502d9f681fcf905e871f6b6fbb3bd78");
    assert_eq!(a.size, 1694);
    assert_eq!(a.url, "https://codeberg.org/PillowMC/mappinggen/releases/download/0.1.1/mappinggen-0.1.1.jar");
    assert_eq!(a.path, "net/pillowmc/mappinggen/0.1.1/mappinggen-0.1.1.jar");
    assert_eq!(mappinggen().name, "net.pillowmc:mappinggen:0.1.1@jar");
}

fn strings(list: &[&str]) -> Vec<String> {
    list.iter().map(|s| s.to_string()).collect()
}

#[test]
fn new_steps() {
    let classpath = strings(&[
        "org.ow2.asm:asm:9.3@jar",
        "net.md-5:SpecialSource:1.11.0@jar",
        "net.sf.jopt-simple:jopt-simple:5.0.4@jar",
        "net.neoforged.installertools:installertools:2.1.2@jar",
        "com.google.code.gson:gson:2.8.9@jar",
        "org.ow2.asm:asm-tree:9.3@jar",
        "com.opencsv:opencsv:4.4@jar",
        "net.neoforged:srgutils:1.0.0@jar",
        "org.apache.commons:commons-text:1.3@jar",
        "de.siegmar:fastcsv:2.0.0@jar",
        "org.apache.commons:commons-lang3:3.8.1@jar",
        "org.apache.commons:commons-collections4:4.2@jar",
        "org.ow2.asm:asm-commons:9.3@jar",
        "net.neoforged.installertools:cli-utils:2.1.2@jar",
        "com.google.guava:guava:20.0@jar",
        "commons-beanutils:commons-beanutils:1.9.3@jar",
        "org.ow2.asm:asm-analysis:9.3@jar",
        "commons-collections:commons-collections:3.2.2@jar",
        "commons-logging:commons-logging:1.2@jar",
    ]);
    assert_eq!(
        make_extract_step("1.20.1"),
        ProcessorStep {
            jar: "net.neoforged.installertools:installertools:2.1.2".to_string(),
            classpath: classpath.clone(),
            args: strings(&[
                "--task",
                "EXTRACT_FILES",
                "--archive",
                "[net.fabricmc:intermediary:1.20.1:v2@jar]",
                "--from",
                "mappings/mappings.tiny",
                "--to",
                "[net.fabricmc:intermediary:1.20.1:v2@tiny]",
            ]),
        }
    );
    assert_eq!(
        make_parents_step("1.20.1"),
        ProcessorStep {
            jar: "net.neoforged.installertools:installertools:2.1.2".to_string(),
            classpath,
            args: strings(&["--task", "CREATE_PARENTS", "--target", "[net.pillowmc:intermediary2srg:1.20.1@jar]"]),
        }
    );
    assert_eq!(
        make_mappinggen_step("1.20.1"),
        ProcessorStep {
            jar: "net.pillowmc:mappinggen:0.1.1".to_string(),
            classpath: strings(&["net.fabricmc:mapping-io:0.5.1@jar", "net.pillowmc:mappinggen:0.1.1@jar"]),
            args: strings(&[
                "{MOJMAPS}",
                "[net.fabricmc:intermediary:1.20.1:v2@tiny]",
                "[net.pillowmc:intermediary2srg:1.20.1@jar]",
            ]),
        }
    );
}

#[test]
fn step_as_json() {
    let step = ProcessorStep { jar: "j".to_string(), classpath: strings(&["c"]), args: strings(&["a", "b"]) };
    assert_eq!(
        step.to_json(),
        object(vec![("jar", text("j")), ("classpath", texts(&["c"])), ("args", texts(&["a", "b"]))])
    );
}

#[test]
fn profile_draft_names_the_game_version() {
    let draft = begin_install_profile(fixture(), "pillow-1", "ICON").ok().unwrap();
    assert_eq!(draft.game_version, "1.20.1");
    assert_eq!(
        finish_install_profile(draft, &vec![record("a:b:1")]),
        create_install_profile(fixture(), "pillow-1", "ICON", &vec![record("a:b:1")])
    );
}

fn without(doc: Json, key: &str) -> Json {
    match doc {
        Json::Object(members) => Json::Object(members.into_iter().filter(|(k, _)| k != key).collect()),
        other => other,
    }
}

fn with(doc: Json, key: &str, value: Json) -> Json {
    match without(doc, key) {
        Json::Object(mut members) => {
            members.push((key.to_string(), value));
            Json::Object(members)
        }
        other => other,
    }
}

fn error_of(doc: Json) -> Option<Error> {
    create_install_profile(doc, "pillow-1", "ICON", &vec![]).err()
}

#[test]
fn profile_not_an_object() {
    assert_eq!(error_of(Json::Null), Some(Error::NotAnObject(Document::InstallProfile)));
    assert_eq!(error_of(Json::Array(vec![fixture()])), Some(Error::NotAnObject(Document::InstallProfile)));
}

#[test]
fn profile_members_missing() {
    assert_eq!(error_of(without(fixture(), "data")), Some(Error::TokenNotFound(Token::Member(Field::Data))));
    assert_eq!(
        error_of(without(fixture(), "minecraft")),
        Some(Error::TokenNotFound(Token::Member(Field::Minecraft)))
    );
    assert_eq!(
        error_of(without(fixture(), "libraries")),
        Some(Error::TokenNotFound(Token::Member(Field::Libraries)))
    );
    assert_eq!(
        error_of(without(fixture(), "processors")),
        Some(Error::TokenNotFound(Token::Member(Field::Processors)))
    );
}

#[test]
fn members_mistyped() {
    assert_eq!(error_of(with(fixture(), "data", Json::Array(vec![]))), Some(Error::WrongType(Field::Data)));
    assert_eq!(error_of(with(fixture(), "minecraft", Json::Null)), Some(Error::WrongType(Field::Minecraft)));
    assert_eq!(
        error_of(with(fixture(), "libraries", text("none"))),
        Some(Error::WrongType(Field::Libraries))
    );
    assert_eq!(
        error_of(with(fixture(), "processors", object(vec![]))),
        Some(Error::WrongType(Field::Processors))
    );
}

#[test]
fn no_binary_patcher() {
    let doc = fixture_with(Json::Array(vec![step("net.neoforged.installertools:installertools:2.1.2")]));
    assert_eq!(error_of(doc), Some(Error::TokenNotFound(Token::BinaryPatcher)));
    assert_eq!(error_of(fixture_with(Json::Array(vec![]))), Some(Error::TokenNotFound(Token::BinaryPatcher)));
}

#[test]
fn errors_come_in_the_order_of_the_steps() {
    let doc = without(without(fixture(), "data"), "minecraft");
    assert_eq!(error_of(doc), Some(Error::TokenNotFound(Token::Member(Field::Data))));
    let doc = without(without(fixture(), "processors"), "libraries");
    assert_eq!(error_of(doc), Some(Error::TokenNotFound(Token::Member(Field::Libraries))));
}

#[test]
fn two_profile_runs_on_the_same_input_agree() {
    assert_eq!(
        create_install_profile(fixture(), "pillow-1", "ICON", &vec![record("a:b:1")]),
        create_install_profile(fixture(), "pillow-1", "ICON", &vec![record("a:b:1")])
    );
}

#[test]
fn a_finished_profile_is_not_patched_again() {
    let doc = create_install_profile(fixture(), "pillow-1", "ICON", &vec![]).unwrap();
    assert_eq!(
        create_install_profile(doc, "pillow-1", "ICON", &vec![]),
        Err(Error::TokenNotFound(Token::BinaryPatcher))
    );
}

#[test]
fn profile_draft_asks_for_the_profile_libraries_and_the_mapping_layer() {
    let draft = begin_install_profile(fixture(), "pillow-1", "ICON").ok().unwrap();
    assert_eq!(
        draft.metadata_url("0.14.21"),
        "https://meta.fabricmc.net/v2/versions/loader/1.20.1/0.14.21/profile/json"
    );
    let fetched = vec![
        FabricStyleLibrary { name: "net.fabricmc:intermediary:1.20.1".to_string(), url: None },
        FabricStyleLibrary { name: "a:b:1".to_string(), url: Some("https://r/".to_string()) },
    ];
    assert_eq!(
        draft.libraries(fetched, "0.3.0"),
        vec![
            FabricStyleLibrary { name: "a:b:1".to_string(), url: Some("https://r/".to_string()) },
            FabricStyleLibrary {
                name: "com.github.PillowMC:pillow:0.3.0-fabric".to_string(),
                url: Some("https://jitpack.io/".to_string())
            },
            FabricStyleLibrary {
                name: "net.fabricmc:intermediary:1.20.1:v2@jar".to_string(),
                url: Some("https://maven.fabricmc.net/".to_string())
            },
        ]
    );
}
