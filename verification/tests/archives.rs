use playlist_downloader::unpack::{extraction_outcome, unpack_zip, ExtractionOutcome};
use std::io::{Cursor, Read, Write};
use std::path::{Path, PathBuf};
use zip::result::ZipError;
use zip::write::FileOptions;
use zip::{CompressionMethod, ZipArchive, ZipWriter};
use zip_extract::ZipExtractError;

fn archive_of(entries: &[(&str, &[u8])]) -> Vec<u8> {
    let mut writer = ZipWriter::new(Cursor::new(Vec::new()));
    let options = FileOptions::default().compression_method(CompressionMethod::Stored);
    for (name, content) in entries {
        writer.start_file(*name, options).unwrap();
        writer.write_all(content).unwrap();
    }
    writer.finish().unwrap().into_inner()
}

#[test]
fn the_entries_of_a_well_formed_archive_go_below_the_directory_of_the_item() {
    let bytes = archive_of(&[("a/b.txt", b"first file"), ("c.txt", b"second")]);
    let mut archive = ZipArchive::new(Cursor::new(bytes)).unwrap();
    let job = unpack_zip("songs/XYZ.zip", "XYZ");
    let mut placed: Vec<(String, Vec<u8>)> = Vec::new();
    for index in 0..archive.len() {
        let mut entry = archive.by_index(index).unwrap();
        let path = job.entry_path(entry.name()).unwrap();
        let mut content = Vec::new();
        entry.read_to_end(&mut content).unwrap();
        placed.push((path, content));
    }
    assert_eq!(
        placed,
        vec![
            ("songs_unpacked/XYZ/a/b.txt".to_string(), b"first file".to_vec()),
            ("songs_unpacked/XYZ/c.txt".to_string(), b"second".to_vec()),
        ]
    );
}

#[test]
fn an_archive_with_an_entry_that_climbs_is_refused_by_its_name() {
    let bytes = archive_of(&[("ok.txt", b"fine"), ("../../evil.txt", b"bad")]);
    let archive = ZipArchive::new(Cursor::new(bytes)).unwrap();
    let job = unpack_zip("songs/XYZ.zip", "XYZ");
    let refused: Vec<ExtractionOutcome> =
        archive.file_names().filter_map(|name| job.entry_path(name).err()).collect();
    assert_eq!(
        refused,
        vec![ExtractionOutcome::PathNormalizationFailure(
            "../../evil.txt".to_string(),
            "entry name leads to a parent directory".to_string(),
        )]
    );
}

#[test]
fn a_corrupt_archive_yields_a_format_failure() {
    let garbage = b"this was never an archive".to_vec();
    let result = zip_extract::extract(Cursor::new(garbage), Path::new("."), false);
    assert!(matches!(result, Err(ZipExtractError::Zip(_))));
    assert_eq!(extraction_outcome(result), ExtractionOutcome::FormatFailure);
}

#[test]
fn a_finished_extraction_is_a_success() {
    assert_eq!(extraction_outcome(Ok(())), ExtractionOutcome::Success);
}

#[test]
fn a_zip_error_is_a_format_failure() {
    let error = ZipExtractError::Zip(ZipError::InvalidArchive("no end of central directory"));
    assert_eq!(extraction_outcome(Err(error)), ExtractionOutcome::FormatFailure);
    let error = ZipExtractError::Zip(ZipError::FileNotFound);
    assert_eq!(extraction_outcome(Err(error)), ExtractionOutcome::FormatFailure);
}

#[test]
fn an_io_error_is_an_io_failure_with_its_text() {
    let error = ZipExtractError::Io(std::io::Error::new(std::io::ErrorKind::Other, "disk full"));
    assert_eq!(
        extraction_outcome(Err(error)),
        ExtractionOutcome::IoFailure("disk full".to_string())
    );
}

#[test]
fn a_strip_error_is_a_path_failure_with_the_path_of_the_entry() {
    let cause = Path::new("inner/file.txt").strip_prefix("other").unwrap_err();
    let detail = cause.to_string();
    let error = ZipExtractError::StripToplevel {
        toplevel: PathBuf::from("other"),
        path: PathBuf::from("inner/file.txt"),
        error: cause,
    };
    assert_eq!(
        extraction_outcome(Err(error)),
        ExtractionOutcome::PathNormalizationFailure("inner/file.txt".to_string(), detail)
    );
}
