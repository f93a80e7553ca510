use pillow_installer::error::Error;
use pillow_installer::jvm_args::{
    create_jvm_args, jvm_args_libraries, jvm_args_metadata_url, jvm_args_need_libraries,
    jvm_game_version, split_lines,
};
use pillow_installer::library::FabricStyleLibrary;

fn reference(name: &str) -> FabricStyleLibrary {
    FabricStyleLibrary { name: name.to_string(), url: None }
}

fn libraries() -> Vec<FabricStyleLibrary> {
    vec![reference("com.foo:bar:1.0"), reference("net.pillowmc:intermediary2srg:1.20.1")]
}

#[test]
fn lines_end_at_line_feeds() {
    assert_eq!(split_lines("a\nb\nc"), vec!["a", "b", "c"]);
    assert_eq!(split_lines("a\nb\nc\n"), vec!["a", "b", "c"]);
    assert_eq!(split_lines(""), Vec::<String>::new());
    assert_eq!(split_lines("\n"), vec![""]);
    assert_eq!(split_lines("\n\na"), vec!["", "", "a"]);
    assert_eq!(split_lines("one"), vec!["one"]);
}

#[test]
fn carriage_return_before_line_feed_leaves() {
    assert_eq!(split_lines("a\r\nb\r\n"), vec!["a", "b"]);
    assert_eq!(split_lines("a\r\r\nb"), vec!["a\r", "b"]);
    assert_eq!(split_lines("a\rb\n"), vec!["a\rb"]);
    assert_eq!(split_lines("a\nb\r"), vec!["a", "b\r"]);
    assert_eq!(split_lines("\r\n"), vec![""]);
}

#[test]
fn lines_agree_with_std() {
    for text in ["", "a", "a\n", "a\r\n", "\r", "a\n\nb\r\n\r\nc\r", "x\r\ny\nz", "\n\r\n"] {
        let expected: Vec<String> = text.lines().map(|l| l.to_string()).collect();
        assert_eq!(split_lines(text), expected);
    }
}

#[test]
fn game_version_is_read() {
    assert_eq!(
        jvm_game_version("-Dx=y\n--fml.mcVersion 1.20.1\n--fml.mcVersion 1.19\n"),
        Some("1.20.1".to_string())
    );
    assert_eq!(jvm_game_version("--fml.mcVersion \n"), Some("".to_string()));
    assert_eq!(jvm_game_version("--fml.mcVersion"), None);
    assert_eq!(jvm_game_version("-Dx=y\n"), None);
    assert_eq!(jvm_game_version(""), None);
}

#[test]
fn lines_are_patched() {
    let text = "-Djava.net.preferIPv6Addresses=system\n-DignoreList=a,b\n-DlegacyClassPath=libraries/x.jar\n--launchTarget forgeserver\n--fml.mcVersion 1.20.1\n";
    let expected = "-DignoreList=a,b,datafixerupper-\n-DlegacyClassPath=libraries/x.jar:libraries/com/foo/bar/1.0/bar-1.0.jar:libraries/net/pillowmc/intermediary2srg/1.20.1/intermediary2srg-1.20.1.jar\n--launchTarget pillowserver\n--fml.mcVersion 1.20.1\n";
    assert_eq!(create_jvm_args(text, &libraries(), false), Ok(expected.to_string()));
}

#[test]
fn windows_separates_with_semicolons() {
    let text = "-DlegacyClassPath=libraries/x.jar\r\n--launchTarget forgeserver";
    let expected = "-DlegacyClassPath=libraries/x.jar;libraries/com/foo/bar/1.0/bar-1.0.jar;libraries/net/pillowmc/intermediary2srg/1.20.1/intermediary2srg-1.20.1.jar\n--launchTarget pillowserver\n";
    assert_eq!(create_jvm_args(text, &libraries(), true), Ok(expected.to_string()));
}

#[test]
fn other_lines_stay() {
    let text = "-Xmx2G\n\n -DignoreList=a\n-Djava.net.preferIPv6Addresses=system \n";
    assert_eq!(
        create_jvm_args(text, &vec![], false),
        Ok("-Xmx2G\n\n -DignoreList=a\n-Djava.net.preferIPv6Addresses=system \n".to_string())
    );
    assert_eq!(create_jvm_args("", &vec![], false), Ok("".to_string()));
    assert_eq!(create_jvm_args("a", &vec![], false), Ok("a\n".to_string()));
}

#[test]
fn no_libraries_leave_the_class_path_as_it_is() {
    assert_eq!(
        create_jvm_args("-DlegacyClassPath=a.jar\n", &vec![], false),
        Ok("-DlegacyClassPath=a.jar\n".to_string())
    );
}

#[test]
fn malformed_library_name_matters_only_for_a_class_path() {
    let bad = vec![reference("com.foo:bar:1.0"), reference("nonsense")];
    assert_eq!(create_jvm_args("-DlegacyClassPath=a.jar\n", &bad, false), Err(Error::MalformedCoordinate));
    assert_eq!(create_jvm_args("-Xmx2G\n", &bad, false), Ok("-Xmx2G\n".to_string()));
}

#[test]
fn libraries_are_needed_for_a_class_path_only() {
    assert!(jvm_args_need_libraries("-Xmx2G\n-DlegacyClassPath=a.jar\n"));
    assert!(jvm_args_need_libraries("-DlegacyClassPath="));
    assert!(!jvm_args_need_libraries("-Xmx2G\n -DlegacyClassPath=a.jar\n"));
    assert!(!jvm_args_need_libraries(""));
}

#[test]
fn server_asks_for_the_server_libraries_with_the_bridge() {
    assert_eq!(
        jvm_args_metadata_url("1.20.1", "0.14.21"),
        "https://meta.fabricmc.net/v2/versions/loader/1.20.1/0.14.21/server/json"
    );
    assert_eq!(
        jvm_args_libraries(vec![reference("org.ow2.asm:asm:9.3"), reference("a:b:1")], "1.20.1", "0.3.0"),
        vec![
            reference("a:b:1"),
            reference("net.pillowmc:intermediary2srg:1.20.1"),
            FabricStyleLibrary {
                name: "com.github.PillowMC:pillow:0.3.0-fabric".to_string(),
                url: Some("https://jitpack.io/".to_string())
            },
        ]
    );
}
