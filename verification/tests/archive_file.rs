use std::io::Read;

use odt_creator::archive::{odt_archive_bytes, odt_entries};

const MEDIA_TYPE: &str = "application/vnd.oasis.opendocument.text";

fn archive() -> zip::ZipArchive<std::io::Cursor<Vec<u8>>> {
    let bytes = odt_archive_bytes();
    zip::ZipArchive::new(std::io::Cursor::new(bytes)).expect("valid zip")
}

#[test]
fn first_entry_is_stored_mimetype() {
    let mut zip = archive();
    let mut first = zip.by_index(0).expect("first entry");
    assert_eq!(first.name(), "mimetype");
    assert_eq!(first.compression(), zip::CompressionMethod::Stored);
    let mut content = String::new();
    first.read_to_string(&mut content).expect("read mimetype");
    assert_eq!(content, MEDIA_TYPE);
    assert_eq!(content.len(), 39);
    assert!(!content.ends_with('\n'));
}

#[test]
fn archive_has_exactly_the_five_entries() {
    let mut zip = archive();
    assert_eq!(zip.len(), 5);
    let expected = ["mimetype", "META-INF/manifest.xml", "content.xml", "styles.xml", "meta.xml"];
    for (i, name) in expected.iter().enumerate() {
        let entry = zip.by_index(i).expect("entry");
        assert_eq!(entry.name(), *name);
    }
}

#[test]
fn xml_entries_are_well_formed() {
    let mut zip = archive();
    for name in ["META-INF/manifest.xml", "content.xml", "styles.xml", "meta.xml"] {
        let mut entry = zip.by_name(name).expect("entry");
        let mut text = String::new();
        entry.read_to_string(&mut text).expect("read entry");
        assert!(text.starts_with("<?xml version=\"1.0\" encoding=\"UTF-8\"?>"));
        let mut reader = quick_xml::reader::Reader::from_str(&text);
        loop {
            match reader.read_event() {
                Ok(quick_xml::events::Event::Eof) => break,
                Ok(_) => {},
                Err(e) => panic!("{} is not well-formed XML: {}", name, e),
            }
        }
    }
}

#[test]
fn xml_entries_are_deflated() {
    let mut zip = archive();
    for name in ["META-INF/manifest.xml", "content.xml", "styles.xml", "meta.xml"] {
        let entry = zip.by_name(name).expect("entry");
        assert_eq!(entry.compression(), zip::CompressionMethod::Deflated);
    }
}

#[test]
fn entry_list_matches_archive() {
    let entries = odt_entries();
    assert_eq!(entries.len(), 5);
    assert_eq!(entries[0].name, "mimetype");
    assert!(entries[0].stored);
    assert_eq!(entries[0].data, MEDIA_TYPE);
    for e in &entries[1..] {
        assert!(!e.stored);
    }
    let mut zip = archive();
    for (i, e) in entries.iter().enumerate() {
        let mut entry = zip.by_index(i).expect("entry");
        assert_eq!(entry.name(), e.name);
        let mut text = String::new();
        entry.read_to_string(&mut text).expect("read entry");
        assert_eq!(text, e.data);
    }
}

#[test]
fn manifest_declares_all_parts() {
    let mut zip = archive();
    let mut entry = zip.by_name("META-INF/manifest.xml").expect("manifest");
    let mut text = String::new();
    entry.read_to_string(&mut text).expect("read manifest");
    assert!(text.contains("manifest:full-path=\"/\""));
    assert!(text.contains("manifest:full-path=\"content.xml\""));
    assert!(text.contains("manifest:full-path=\"styles.xml\""));
    assert!(text.contains("manifest:full-path=\"meta.xml\""));
    assert!(text.contains(MEDIA_TYPE));
}
