//! Assembly of the minimal OpenDocument Text container: five fixed entries,
//! zipped in memory, with the `mimetype` entry first and uncompressed.

use vstd::prelude::*;
use vstd::string::StringExecFns;

verus! {

/// One entry of the document archive: its name in the container, its
/// content, and whether it is stored uncompressed rather than deflated.
pub struct ArchiveEntry {
    pub name: String,
    pub data: String,
    pub stored: bool,
}

impl ArchiveEntry {
    /// The entry as plain values: name, content, stored flag.
    pub open spec fn model(self) -> (Seq<char>, Seq<char>, bool) {
        (self.name@, self.data@, self.stored)
    }
}

/// The models of a sequence of entries.
pub open spec fn models(s: Seq<ArchiveEntry>) -> Seq<(Seq<char>, Seq<char>, bool)> {
    s.map_values(|e: ArchiveEntry| e.model())
}

/// The media type of an OpenDocument Text file; the content of the
/// `mimetype` entry, which the container format requires to come first and
/// uncompressed.
pub open spec fn mimetype_content() -> Seq<char> {
    "application/vnd.oasis.opendocument.text"@
}

/// The manifest: the index of the container's parts and their media types.
pub open spec fn manifest_content() -> Seq<char> {
    "<?xml version=\"1.0\" encoding=\"UTF-8\"?>\n<manifest:manifest xmlns:manifest=\"urn:oasis:names:tc:opendocument:xmlns:manifest:1.0\">\n    <manifest:file-entry manifest:full-path=\"/\" manifest:media-type=\"application/vnd.oasis.opendocument.text\"/>\n    <manifest:file-entry manifest:full-path=\"content.xml\" manifest:media-type=\"text/xml\"/>\n    <manifest:file-entry manifest:full-path=\"styles.xml\" manifest:media-type=\"text/xml\"/>\n    <manifest:file-entry manifest:full-path=\"meta.xml\" manifest:media-type=\"text/xml\"/>\n</manifest:manifest>"@
}

/// The document content: one placeholder paragraph.
pub open spec fn content_xml() -> Seq<char> {
    "<?xml version=\"1.0\" encoding=\"UTF-8\"?>\n<office:document-content xmlns:office=\"urn:oasis:names:tc:opendocument:xmlns:office:1.0\"\n                        xmlns:text=\"urn:oasis:names:tc:opendocument:xmlns:text:1.0\"\n                        xmlns:style=\"urn:oasis:names:tc:opendocument:xmlns:style:1.0\"\n                        xmlns:fo=\"urn:oasis:names:tc:opendocument:xmlns:xsl-fo-compatible:1.0\">\n    <office:body>\n        <office:text>\n            <text:p text:style-name=\"Standard\">This is a new ODT document created by Rust CLI tool.</text:p>\n        </office:text>\n    </office:body>\n</office:document-content>"@
}

/// The styles: one default paragraph style.
pub open spec fn styles_xml() -> Seq<char> {
    "<?xml version=\"1.0\" encoding=\"UTF-8\"?>\n<office:document-styles xmlns:office=\"urn:oasis:names:tc:opendocument:xmlns:office:1.0\"\n                       xmlns:style=\"urn:oasis:names:tc:opendocument:xmlns:style:1.0\"\n                       xmlns:text=\"urn:oasis:names:tc:opendocument:xmlns:text:1.0\"\n                       xmlns:fo=\"urn:oasis:names:tc:opendocument:xmlns:xsl-fo-compatible:1.0\">\n    <office:styles>\n        <style:default-style style:family=\"paragraph\">\n            <style:paragraph-properties fo:hyphenation-ladder-count=\"no-limit\"/>\n            <style:text-properties fo:language=\"en\" fo:country=\"US\"/>\n        </style:default-style>\n        <style:style style:name=\"Standard\" style:family=\"paragraph\" style:class=\"text\"/>\n    </office:styles>\n</office:document-styles>"@
}

/// The document metadata, with a fixed creation-date literal.
pub open spec fn meta_xml() -> Seq<char> {
    "<?xml version=\"1.0\" encoding=\"UTF-8\"?>\n<office:document-meta xmlns:office=\"urn:oasis:names:tc:opendocument:xmlns:office:1.0\"\n                     xmlns:meta=\"urn:oasis:names:tc:opendocument:xmlns:meta:1.0\">\n    <office:meta>\n        <meta:generator>Rust CLI ODT Creator</meta:generator>\n        <meta:creation-date>2025-06-13T00:00:00</meta:creation-date>\n    </office:meta>\n</office:document-meta>"@
}

/// The five entries of the minimal text-document archive, in container
/// order: the uncompressed `mimetype` first, then the manifest, the content,
/// the styles, and the metadata, all deflated.
pub open spec fn odt_entries_spec() -> Seq<(Seq<char>, Seq<char>, bool)> {
    seq![
        ("mimetype"@, mimetype_content(), true),
        ("META-INF/manifest.xml"@, manifest_content(), false),
        ("content.xml"@, content_xml(), false),
        ("styles.xml"@, styles_xml(), false),
        ("meta.xml"@, meta_xml(), false),
    ]
}

/// The archive layout follows the container format's rule: exactly five
/// entries, the `mimetype` entry first, stored uncompressed, holding exactly
/// the 39 characters of the media type, and every other entry compressed.
pub proof fn lemma_mimetype_first()
    ensures
        odt_entries_spec().len() == 5,
        odt_entries_spec()[0].0 == "mimetype"@,
        odt_entries_spec()[0].1 == mimetype_content(),
        odt_entries_spec()[0].1.len() == 39,
        odt_entries_spec()[0].2,
        forall|j: int| 1 <= j < 5 ==> !(#[trigger] odt_entries_spec()[j]).2,
{
    reveal_strlit("application/vnd.oasis.opendocument.text");
}

/// Every entry's content is short, far below the zip writer's large-file
/// threshold.
proof fn lemma_entry_sizes()
    ensures
        forall|j: int| 0 <= j < 5 ==> (#[trigger] odt_entries_spec()[j]).1.len() < 1024,
{
    reveal_strlit("application/vnd.oasis.opendocument.text");
    reveal_strlit("<?xml version=\"1.0\" encoding=\"UTF-8\"?>\n<manifest:manifest xmlns:manifest=\"urn:oasis:names:tc:opendocument:xmlns:manifest:1.0\">\n    <manifest:file-entry manifest:full-path=\"/\" manifest:media-type=\"application/vnd.oasis.opendocument.text\"/>\n    <manifest:file-entry manifest:full-path=\"content.xml\" manifest:media-type=\"text/xml\"/>\n    <manifest:file-entry manifest:full-path=\"styles.xml\" manifest:media-type=\"text/xml\"/>\n    <manifest:file-entry manifest:full-path=\"meta.xml\" manifest:media-type=\"text/xml\"/>\n</manifest:manifest>");
    reveal_strlit("<?xml version=\"1.0\" encoding=\"UTF-8\"?>\n<office:document-content xmlns:office=\"urn:oasis:names:tc:opendocument:xmlns:office:1.0\"\n                        xmlns:text=\"urn:oasis:names:tc:opendocument:xmlns:text:1.0\"\n                        xmlns:style=\"urn:oasis:names:tc:opendocument:xmlns:style:1.0\"\n                        xmlns:fo=\"urn:oasis:names:tc:opendocument:xmlns:xsl-fo-compatible:1.0\">\n    <office:body>\n        <office:text>\n            <text:p text:style-name=\"Standard\">This is a new ODT document created by Rust CLI tool.</text:p>\n        </office:text>\n    </office:body>\n</office:document-content>");
    reveal_strlit("<?xml version=\"1.0\" encoding=\"UTF-8\"?>\n<office:document-styles xmlns:office=\"urn:oasis:names:tc:opendocument:xmlns:office:1.0\"\n                       xmlns:style=\"urn:oasis:names:tc:opendocument:xmlns:style:1.0\"\n                       xmlns:text=\"urn:oasis:names:tc:opendocument:xmlns:text:1.0\"\n                       xmlns:fo=\"urn:oasis:names:tc:opendocument:xmlns:xsl-fo-compatible:1.0\">\n    <office:styles>\n        <style:default-style style:family=\"paragraph\">\n            <style:paragraph-properties fo:hyphenation-ladder-count=\"no-limit\"/>\n            <style:text-properties fo:language=\"en\" fo:country=\"US\"/>\n        </style:default-style>\n        <style:style style:name=\"Standard\" style:family=\"paragraph\" style:class=\"text\"/>\n    </office:styles>\n</office:document-styles>");
    reveal_strlit("<?xml version=\"1.0\" encoding=\"UTF-8\"?>\n<office:document-meta xmlns:office=\"urn:oasis:names:tc:opendocument:xmlns:office:1.0\"\n                     xmlns:meta=\"urn:oasis:names:tc:opendocument:xmlns:meta:1.0\">\n    <office:meta>\n        <meta:generator>Rust CLI ODT Creator</meta:generator>\n        <meta:creation-date>2025-06-13T00:00:00</meta:creation-date>\n    </office:meta>\n</office:document-meta>");
    assert(odt_entries_spec()[0].1.len() < 1024);
    assert(odt_entries_spec()[1].1.len() < 1024);
    assert(odt_entries_spec()[2].1.len() < 1024);
    assert(odt_entries_spec()[3].1.len() < 1024);
    assert(odt_entries_spec()[4].1.len() < 1024);
}

/// Each XML part of the archive begins with the 38-character XML declaration
/// naming UTF-8.
pub proof fn lemma_xml_declarations()
    ensures
        forall|j: int| 1 <= j < 5 ==> (#[trigger] odt_entries_spec()[j]).1.take(38)
            == "<?xml version=\"1.0\" encoding=\"UTF-8\"?>"@,
{
    reveal_strlit("<?xml version=\"1.0\" encoding=\"UTF-8\"?>");
    reveal_strlit("<?xml version=\"1.0\" encoding=\"UTF-8\"?>\n<manifest:manifest xmlns:manifest=\"urn:oasis:names:tc:opendocument:xmlns:manifest:1.0\">\n    <manifest:file-entry manifest:full-path=\"/\" manifest:media-type=\"application/vnd.oasis.opendocument.text\"/>\n    <manifest:file-entry manifest:full-path=\"content.xml\" manifest:media-type=\"text/xml\"/>\n    <manifest:file-entry manifest:full-path=\"styles.xml\" manifest:media-type=\"text/xml\"/>\n    <manifest:file-entry manifest:full-path=\"meta.xml\" manifest:media-type=\"text/xml\"/>\n</manifest:manifest>");
    reveal_strlit("<?xml version=\"1.0\" encoding=\"UTF-8\"?>\n<office:document-content xmlns:office=\"urn:oasis:names:tc:opendocument:xmlns:office:1.0\"\n                        xmlns:text=\"urn:oasis:names:tc:opendocument:xmlns:text:1.0\"\n                        xmlns:style=\"urn:oasis:names:tc:opendocument:xmlns:style:1.0\"\n                        xmlns:fo=\"urn:oasis:names:tc:opendocument:xmlns:xsl-fo-compatible:1.0\">\n    <office:body>\n        <office:text>\n            <text:p text:style-name=\"Standard\">This is a new ODT document created by Rust CLI tool.</text:p>\n        </office:text>\n    </office:body>\n</office:document-content>");
    reveal_strlit("<?xml version=\"1.0\" encoding=\"UTF-8\"?>\n<office:document-styles xmlns:office=\"urn:oasis:names:tc:opendocument:xmlns:office:1.0\"\n                       xmlns:style=\"urn:oasis:names:tc:opendocument:xmlns:style:1.0\"\n                       xmlns:text=\"urn:oasis:names:tc:opendocument:xmlns:text:1.0\"\n                       xmlns:fo=\"urn:oasis:names:tc:opendocument:xmlns:xsl-fo-compatible:1.0\">\n    <office:styles>\n        <style:default-style style:family=\"paragraph\">\n            <style:paragraph-properties fo:hyphenation-ladder-count=\"no-limit\"/>\n            <style:text-properties fo:language=\"en\" fo:country=\"US\"/>\n        </style:default-style>\n        <style:style style:name=\"Standard\" style:family=\"paragraph\" style:class=\"text\"/>\n    </office:styles>\n</office:document-styles>");
    reveal_strlit("<?xml version=\"1.0\" encoding=\"UTF-8\"?>\n<office:document-meta xmlns:office=\"urn:oasis:names:tc:opendocument:xmlns:office:1.0\"\n                     xmlns:meta=\"urn:oasis:names:tc:opendocument:xmlns:meta:1.0\">\n    <office:meta>\n        <meta:generator>Rust CLI ODT Creator</meta:generator>\n        <meta:creation-date>2025-06-13T00:00:00</meta:creation-date>\n    </office:meta>\n</office:document-meta>");
    assert(odt_entries_spec()[1].1.take(38) =~= "<?xml version=\"1.0\" encoding=\"UTF-8\"?>"@);
    assert(odt_entries_spec()[2].1.take(38) =~= "<?xml version=\"1.0\" encoding=\"UTF-8\"?>"@);
    assert(odt_entries_spec()[3].1.take(38) =~= "<?xml version=\"1.0\" encoding=\"UTF-8\"?>"@);
    assert(odt_entries_spec()[4].1.take(38) =~= "<?xml version=\"1.0\" encoding=\"UTF-8\"?>"@);
}

/// Builds the five entries of the archive.
pub fn odt_entries() -> (r: Vec<ArchiveEntry>)
    ensures
        models(r@) == odt_entries_spec(),
{
    let mut v: Vec<ArchiveEntry> = Vec::new();
    v.push(
        ArchiveEntry {
            name: String::from_str("mimetype"),
            data: String::from_str("application/vnd.oasis.opendocument.text"),
            stored: true,
        },
    );
    v.push(
        ArchiveEntry {
            name: String::from_str("META-INF/manifest.xml"),
            data: String::from_str(
                "<?xml version=\"1.0\" encoding=\"UTF-8\"?>\n<manifest:manifest xmlns:manifest=\"urn:oasis:names:tc:opendocument:xmlns:manifest:1.0\">\n    <manifest:file-entry manifest:full-path=\"/\" manifest:media-type=\"application/vnd.oasis.opendocument.text\"/>\n    <manifest:file-entry manifest:full-path=\"content.xml\" manifest:media-type=\"text/xml\"/>\n    <manifest:file-entry manifest:full-path=\"styles.xml\" manifest:media-type=\"text/xml\"/>\n    <manifest:file-entry manifest:full-path=\"meta.xml\" manifest:media-type=\"text/xml\"/>\n</manifest:manifest>",
            ),
            stored: false,
        },
    );
    v.push(
        ArchiveEntry {
            name: String::from_str("content.xml"),
            data: String::from_str(
                "<?xml version=\"1.0\" encoding=\"UTF-8\"?>\n<office:document-content xmlns:office=\"urn:oasis:names:tc:opendocument:xmlns:office:1.0\"\n                        xmlns:text=\"urn:oasis:names:tc:opendocument:xmlns:text:1.0\"\n                        xmlns:style=\"urn:oasis:names:tc:opendocument:xmlns:style:1.0\"\n                        xmlns:fo=\"urn:oasis:names:tc:opendocument:xmlns:xsl-fo-compatible:1.0\">\n    <office:body>\n        <office:text>\n            <text:p text:style-name=\"Standard\">This is a new ODT document created by Rust CLI tool.</text:p>\n        </office:text>\n    </office:body>\n</office:document-content>",
            ),
            stored: false,
        },
    );
    v.push(
        ArchiveEntry {
            name: String::from_str("styles.xml"),
            data: String::from_str(
                "<?xml version=\"1.0\" encoding=\"UTF-8\"?>\n<office:document-styles xmlns:office=\"urn:oasis:names:tc:opendocument:xmlns:office:1.0\"\n                       xmlns:style=\"urn:oasis:names:tc:opendocument:xmlns:style:1.0\"\n                       xmlns:text=\"urn:oasis:names:tc:opendocument:xmlns:text:1.0\"\n                       xmlns:fo=\"urn:oasis:names:tc:opendocument:xmlns:xsl-fo-compatible:1.0\">\n    <office:styles>\n        <style:default-style style:family=\"paragraph\">\n            <style:paragraph-properties fo:hyphenation-ladder-count=\"no-limit\"/>\n            <style:text-properties fo:language=\"en\" fo:country=\"US\"/>\n        </style:default-style>\n        <style:style style:name=\"Standard\" style:family=\"paragraph\" style:class=\"text\"/>\n    </office:styles>\n</office:document-styles>",
            ),
            stored: false,
        },
    );
    v.push(
        ArchiveEntry {
            name: String::from_str("meta.xml"),
            data: String::from_str(
                "<?xml version=\"1.0\" encoding=\"UTF-8\"?>\n<office:document-meta xmlns:office=\"urn:oasis:names:tc:opendocument:xmlns:office:1.0\"\n                     xmlns:meta=\"urn:oasis:names:tc:opendocument:xmlns:meta:1.0\">\n    <office:meta>\n        <meta:generator>Rust CLI ODT Creator</meta:generator>\n        <meta:creation-date>2025-06-13T00:00:00</meta:creation-date>\n    </office:meta>\n</office:document-meta>",
            ),
            stored: false,
        },
    );
    proof {
        assert(models(v@) =~= odt_entries_spec());
    }
    v
}

/// The bytes of the archive that zipping these entries yields; with this
/// build of the zip crate they are a function of the entries alone.
pub uninterp spec fn zip_bytes_of(entries: Seq<(Seq<char>, Seq<char>, bool)>) -> Seq<u8>;

/// Relies on `zip::ZipWriter` writing to an in-memory buffer: `start_file`
/// opens an entry under the given name with the given compression, and
/// `write_all` fills it. With this build of the crate (no `time` feature,
/// so the fixed default entry timestamp; deflate compression), the archive
/// bytes depend on the entry names, contents, and compression choices alone.
/// Writes into the in-memory buffer do not fail, and the writer's only
/// data-dependent error is an entry growing past the ZIP64 byte threshold;
/// the bound below keeps every entry under it even at four bytes per
/// character, so the writer succeeds.
#[verifier::external_body]
fn zip_entries(entries: &Vec<ArchiveEntry>) -> (r: Option<Vec<u8>>)
    requires
        forall|j: int| 0 <= j < entries@.len() ==> (#[trigger] entries@[j]).data@.len()
            < 0x4000_0000,
    ensures
        r is Some,
        r matches Some(b) ==> b@ == zip_bytes_of(models(entries@)),
{
    let mut zw = zip::ZipWriter::new(std::io::Cursor::new(Vec::new()));
    for e in entries.iter() {
        let method = if e.stored { zip::CompressionMethod::Stored } else { zip::CompressionMethod::Deflated };
        let opts = zip::write::FileOptions::default().compression_method(method);
        if zw.start_file(e.name.as_str(), opts).is_err() {
            return None;
        }
        if std::io::Write::write_all(&mut zw, e.data.as_bytes()).is_err() {
            return None;
        }
    }
    match zw.finish() {
        Ok(c) => Some(c.into_inner()),
        Err(_) => None,
    }
}

/// The bytes of the minimal text-document archive file.
pub fn odt_archive_bytes() -> (r: Vec<u8>)
    ensures
        r@ == zip_bytes_of(odt_entries_spec()),
{
    let entries = odt_entries();
    proof {
        lemma_entry_sizes();
        assert(models(entries@).len() == entries@.len());
        assert forall|j: int| 0 <= j < entries@.len() implies (#[trigger] entries@[j]).data@.len()
            < 0x4000_0000 by {
            assert(models(entries@)[j] == entries@[j].model());
            assert(odt_entries_spec()[j].1.len() < 1024);
        };
    }
    match zip_entries(&entries) {
        Some(b) => b,
        None => unreached(),
    }
}

} // verus!
