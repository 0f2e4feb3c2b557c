use playlist_downloader::item::{DownloadItem, RetrievalTarget};
use playlist_downloader::pipeline::{plan_batch, BatchStep};
use playlist_downloader::unpack::unpack_zip;

fn fetch(key: &str, identifier: &str, position: usize, count: usize) -> BatchStep {
    BatchStep::Fetch {
        target: RetrievalTarget {
            url: format!("https://api.beatsaver.com/download/key/{}", key),
            destination_path: format!("songs/{}.zip", identifier),
        },
        position,
        count,
    }
}

#[test]
fn an_empty_batch_still_sweeps_and_saves() {
    assert_eq!(
        plan_batch(&vec![]),
        vec![
            BatchStep::EnsureDirectory("songs".to_string()),
            BatchStep::RemoveUnpacked,
            BatchStep::RemoveDownloaded,
            BatchStep::SaveManifest,
        ]
    );
}

#[test]
fn a_batch_fetches_everything_before_it_unpacks_anything() {
    let todo = vec![
        DownloadItem::new("first", Some("1a")),
        DownloadItem::new("second", None),
        DownloadItem::new("third", Some("3c")),
    ];
    assert_eq!(
        plan_batch(&todo),
        vec![
            BatchStep::EnsureDirectory("songs".to_string()),
            fetch("1a", "first", 1, 3),
            fetch("3c", "third", 2, 3),
            BatchStep::RemoveUnpacked,
            BatchStep::EnsureDirectory("songs_unpacked".to_string()),
            BatchStep::Unpack(unpack_zip("songs/first.zip", "first")),
            BatchStep::EnsureDirectory("songs_unpacked".to_string()),
            BatchStep::Unpack(unpack_zip("songs/second.zip", "second")),
            BatchStep::EnsureDirectory("songs_unpacked".to_string()),
            BatchStep::Unpack(unpack_zip("songs/third.zip", "third")),
            BatchStep::RemoveDownloaded,
            BatchStep::SaveManifest,
        ]
    );
}

#[test]
fn every_item_is_unpacked_right_after_its_root_is_made_sure_of() {
    let names = ["a", "b", "c", "d", "e"];
    let todo: Vec<DownloadItem> = names
        .iter()
        .enumerate()
        .map(|(i, name)| DownloadItem::new(name, if i % 2 == 0 { Some("k") } else { None }))
        .collect();
    let steps = plan_batch(&todo);
    assert_eq!(steps.len(), 3 + 2 * 5 + 4);
    let last_fetch = steps.iter().rposition(|step| matches!(step, BatchStep::Fetch { .. })).unwrap();
    let first_unpack = steps.iter().position(|step| matches!(step, BatchStep::Unpack(_))).unwrap();
    assert!(last_fetch < first_unpack);
    for name in names {
        let at = steps
            .iter()
            .position(|step| matches!(step, BatchStep::Unpack(job) if job.identifier == name))
            .unwrap();
        assert_eq!(steps[at - 1], BatchStep::EnsureDirectory("songs_unpacked".to_string()));
    }
    assert_eq!(steps[steps.len() - 2], BatchStep::RemoveDownloaded);
    assert_eq!(steps[steps.len() - 1], BatchStep::SaveManifest);
}
