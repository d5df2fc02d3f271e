use ferrflow::formats::gomod::GoModVersionFile;
use ferrflow::formats::json::JsonVersionFile;
use ferrflow::formats::xml::XmlVersionFile;
use ferrflow::formats::{
    get_handler, read_version, write_version, FileFormat, FormatError, Handler, VersionFile,
    VersionedFile,
};

fn vf(format: FileFormat) -> VersionedFile {
    VersionedFile { path: "x".to_string(), format }
}

#[test]
fn json_objects_always_take_the_version() {
    assert_eq!(
        JsonVersionFile.write_version("{}", "0.1.0").ok().as_deref(),
        Some("{\n  \"version\": \"0.1.0\"\n}\n")
    );
    assert_eq!(
        JsonVersionFile.write_version("{\"version\": 7, \"a\": [1]}", "x").ok().as_deref(),
        Some("{\n  \"a\": [\n    1\n  ],\n  \"version\": \"x\"\n}\n")
    );
}

#[test]
fn json_version_is_read_and_written() {
    let content = "{\n  \"name\": \"app\",\n  \"version\": \"1.2.3\"\n}\n";
    assert_eq!(JsonVersionFile.read_version(content).ok().as_deref(), Some("1.2.3"));
    let written = JsonVersionFile.write_version(content, "2.0.0").ok().unwrap();
    assert_eq!(written, "{\n  \"name\": \"app\",\n  \"version\": \"2.0.0\"\n}\n");
    assert_eq!(JsonVersionFile.read_version(&written).ok().as_deref(), Some("2.0.0"));
}

#[test]
fn json_errors() {
    match JsonVersionFile.read_version("{\"name\": 1}") {
        Err(e @ FormatError::NoVersionField) => {
            assert_eq!(e.message("package.json"), "No 'version' field in package.json")
        }
        _ => panic!("expected NoVersionField"),
    }
    assert!(matches!(JsonVersionFile.read_version("{\"version\": 3}"), Err(FormatError::NoVersionField)));
    match JsonVersionFile.read_version("{") {
        Err(e @ FormatError::InvalidJson(_)) => {
            assert_eq!(e.message("p.json"), "Invalid JSON in p.json")
        }
        _ => panic!("expected InvalidJson"),
    }
    match (JsonVersionFile.write_version("nope", "1"), JsonVersionFile.read_version("nope")) {
        (Err(FormatError::Json(w)), Err(FormatError::InvalidJson(r))) => {
            assert!(!w.is_empty());
            assert_eq!(w, r);
        }
        _ => panic!("expected parser errors"),
    }
    match write_version(&vf(FileFormat::Json), "[1]", "1") {
        Err(e @ FormatError::NotAnObject) => assert_eq!(
            e.message("p.json"),
            "Cannot set 'version' in p.json: the JSON document is not an object"
        ),
        _ => panic!("expected NotAnObject"),
    }
    assert!(matches!(write_version(&vf(FileFormat::Json), "7", "1"), Err(FormatError::NotAnObject)));
    assert!(matches!(write_version(&vf(FileFormat::Json), "{", "1"), Err(FormatError::Json(_))));
    assert_eq!(
        JsonVersionFile.write_version("null", "1").ok().as_deref(),
        Some("{\n  \"version\": \"1\"\n}\n")
    );
}

#[test]
fn xml_version_is_read_and_written() {
    let content = "<project>\n  <version> 1.0.0 </version>\n  <dep><version>9</version></dep>\n</project>";
    assert_eq!(XmlVersionFile.read_version(content).ok().as_deref(), Some("1.0.0"));
    let written = XmlVersionFile.write_version(content, "1.1.0").ok().unwrap();
    assert_eq!(
        written,
        "<project>\n  <version>1.1.0</version>\n  <dep><version>9</version></dep>\n</project>"
    );
    assert_eq!(XmlVersionFile.write_version(content, "$1").ok().unwrap().contains("<version>$1</version>"), true);
}

#[test]
fn xml_errors() {
    match XmlVersionFile.read_version("<project/>") {
        Err(e @ FormatError::NoVersionTag) => {
            assert_eq!(e.message("pom.xml"), "No <version> tag found in pom.xml")
        }
        _ => panic!("expected NoVersionTag"),
    }
    match XmlVersionFile.write_version("<version></version>", "1") {
        Err(e @ FormatError::NoVersionTagToUpdate) => {
            assert_eq!(e.message("pom.xml"), "No <version> tag found to update in pom.xml")
        }
        _ => panic!("expected NoVersionTagToUpdate"),
    }
}

#[test]
fn gomod_versions_come_from_tags() {
    assert_eq!(GoModVersionFile.version_from_describe(true, "v1.4.0\n").ok().as_deref(), Some("1.4.0"));
    assert_eq!(GoModVersionFile.version_from_describe(true, "vv2\n").ok().as_deref(), Some("2"));
    match GoModVersionFile.version_from_describe(false, "") {
        Err(e @ FormatError::NoVersionGitTag) => assert!(e.message("go.mod").contains("git tag v0.1.0")),
        _ => panic!("expected NoVersionGitTag"),
    }
    assert_eq!(GoModVersionFile.read_version(" v0.3.1 ").ok().as_deref(), Some("0.3.1"));
    assert_eq!(GoModVersionFile.write_version("module x", "1").ok().as_deref(), Some("module x"));
}

#[test]
fn handlers_follow_the_format() {
    assert!(matches!(get_handler(&FileFormat::Json), Handler::Json(_)));
    assert!(matches!(get_handler(&FileFormat::Xml), Handler::Xml(_)));
    assert_eq!(
        read_version(&vf(FileFormat::Json), "{\"version\":\"0.1.0\"}").ok().as_deref(),
        Some("0.1.0")
    );
    assert_eq!(
        write_version(&vf(FileFormat::Xml), "<version>0.1.0</version>", "0.2.0").ok().as_deref(),
        Some("<version>0.2.0</version>")
    );
}

#[test]
fn xml_reads_back_and_rewrites_idempotently() {
    let content = "<a><version>0.9</version><v><version>1</version></v></a>";
    let once = XmlVersionFile.write_version(content, "2.0.0").ok().unwrap();
    assert_eq!(XmlVersionFile.read_version(&once).ok().as_deref(), Some("2.0.0"));
    let twice = XmlVersionFile.write_version(&once, "2.0.0").ok().unwrap();
    assert_eq!(once, twice);
    assert_eq!(once, "<a><version>2.0.0</version><v><version>1</version></v></a>");
}

#[test]
fn xml_skips_elements_that_do_not_match() {
    let content = "<version></version><version>a<b</version><version>3</version>";
    assert_eq!(XmlVersionFile.read_version(content).ok().as_deref(), Some("3"));
    assert_eq!(
        XmlVersionFile.write_version(content, "4").ok().as_deref(),
        Some("<version></version><version>a<b</version><version>4</version>")
    );
}
