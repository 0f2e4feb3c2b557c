//! The items of a playlist and where each is fetched from.

use crate::directory::DOWNLOADED_PATH;
use vstd::prelude::*;
use vstd::string::*;

verus! {

/// The address under which an item is fetched, up to its key.
pub const DOWNLOAD_URL: &'static str = "https://api.beatsaver.com/download/key/";

/// One downloadable unit. Its identity is `identifier`: two items with the
/// same identifier are the same song.
#[derive(Debug, PartialEq, Eq)]
pub struct DownloadItem {
    /// A stable key that is safe as a file name, such as a content hash.
    pub identifier: String,
    /// The key under which the server knows the item, if it has one.
    pub source_key: Option<String>,
}

/// A download item as a mathematical value.
pub struct DownloadItemModel {
    pub identifier: Seq<char>,
    pub source_key: Option<Seq<char>>,
}

/// Where an item is fetched from and where its archive is kept.
#[derive(Debug, PartialEq, Eq)]
pub struct RetrievalTarget {
    pub url: String,
    pub destination_path: String,
}

/// A retrieval target as a mathematical value.
pub struct RetrievalTargetModel {
    pub url: Seq<char>,
    pub destination_path: Seq<char>,
}

impl View for DownloadItem {
    type V = DownloadItemModel;

    open spec fn view(&self) -> DownloadItemModel {
        DownloadItemModel {
            identifier: self.identifier@,
            source_key: match self.source_key {
                Some(key) => Some(key@),
                None => None,
            },
        }
    }
}

impl View for RetrievalTarget {
    type V = RetrievalTargetModel;

    open spec fn view(&self) -> RetrievalTargetModel {
        RetrievalTargetModel { url: self.url@, destination_path: self.destination_path@ }
    }
}

/// The path of the archive of the item `identifier`.
pub open spec fn archive_path(identifier: Seq<char>) -> Seq<char> {
    DOWNLOADED_PATH@ + "/"@ + identifier + ".zip"@
}

/// The target of an item, or `None` for an item without a key.
pub open spec fn target_of(item: DownloadItemModel) -> Option<RetrievalTargetModel> {
    match item.source_key {
        Some(key) => Some(
            RetrievalTargetModel {
                url: DOWNLOAD_URL@ + key,
                destination_path: archive_path(item.identifier),
            },
        ),
        None => None,
    }
}

/// The views of the items of `items`, in order.
pub open spec fn item_models(items: Seq<DownloadItem>) -> Seq<DownloadItemModel> {
    Seq::new(items.len(), |i: int| items[i]@)
}

/// The views of the targets of `targets`, in order.
pub open spec fn target_models(targets: Seq<RetrievalTarget>) -> Seq<RetrievalTargetModel> {
    Seq::new(targets.len(), |i: int| targets[i]@)
}

/// True when an item before position `i` has the identifier of item `i`.
pub open spec fn seen_before(items: Seq<DownloadItemModel>, i: int) -> bool {
    exists|j: int| 0 <= j < i && #[trigger] items[j].identifier == items[i].identifier
}

/// True when item `i` is still to be fetched: it is not among the existing
/// ones, and it is the first of its identifier.
pub open spec fn is_pending(
    items: Seq<DownloadItemModel>,
    existing: Seq<Seq<char>>,
    i: int,
) -> bool {
    !existing.contains(items[i].identifier) && !seen_before(items, i)
}

/// The items still to be fetched, in playlist order.
pub open spec fn pending(
    items: Seq<DownloadItemModel>,
    existing: Seq<Seq<char>>,
) -> Seq<DownloadItemModel>
    decreases items.len(),
{
    if items.len() == 0 {
        Seq::empty()
    } else if is_pending(items, existing, items.len() - 1) {
        pending(items.drop_last(), existing).push(items.last())
    } else {
        pending(items.drop_last(), existing)
    }
}

/// The targets of the items that have a key, in order.
pub open spec fn targets(items: Seq<DownloadItemModel>) -> Seq<RetrievalTargetModel>
    decreases items.len(),
{
    if items.len() == 0 {
        Seq::empty()
    } else {
        match target_of(items.last()) {
            Some(target) => targets(items.drop_last()).push(target),
            None => targets(items.drop_last()),
        }
    }
}

fn clone_key(key: &Option<String>) -> (copy: Option<String>)
    ensures
        copy == *key,
{
    match key {
        Some(text) => Some(text.clone()),
        None => None,
    }
}

impl DownloadItem {
    /// An item with the given identifier and key.
    pub fn new(identifier: &str, source_key: Option<&str>) -> (item: DownloadItem)
        ensures
            item@.identifier == identifier@,
            item@.source_key == match source_key {
                Some(key) => Some(key@),
                None => None,
            },
    {
        DownloadItem {
            identifier: String::from_str(identifier),
            source_key: match source_key {
                Some(key) => Some(String::from_str(key)),
                None => None,
            },
        }
    }

    /// A copy of the item.
    pub fn duplicate(&self) -> (item: DownloadItem)
        ensures
            item@ == self@,
    {
        DownloadItem { identifier: self.identifier.clone(), source_key: clone_key(&self.source_key) }
    }

    /// The path under which the archive of this item is kept.
    pub fn archive_path(&self) -> (path: String)
        ensures
            path@ == archive_path(self@.identifier),
    {
        let mut path = String::from_str(DOWNLOADED_PATH);
        path.append("/");
        path.append(self.identifier.as_str());
        path.append(".zip");
        path
    }

    /// Where this item is fetched from and where its archive goes; `None`
    /// for an item without a key, which cannot be fetched.
    pub fn retrieval_target(&self) -> (target: Option<RetrievalTarget>)
        ensures
            target.is_some() == target_of(self@).is_some(),
            target matches Some(t) ==> Some(t@) == target_of(self@),
    {
        match &self.source_key {
            Some(key) => {
                let mut url = String::from_str(DOWNLOAD_URL);
                url.append(key.as_str());
                Some(RetrievalTarget { url, destination_path: self.archive_path() })
            },
            None => None,
        }
    }
}

fn holds(existing: &Vec<String>, identifier: &String) -> (found: bool)
    ensures
        found == identifiers(existing@).contains(identifier@),
{
    let ghost views = identifiers(existing@);
    let mut i: usize = 0;
    while i < existing.len()
        invariant
            i <= existing.len(),
            views == identifiers(existing@),
            forall|j: int| 0 <= j < i ==> views[j] != identifier@,
        decreases existing.len() - i,
    {
        if existing[i] == *identifier {
            assert(views[i as int] == identifier@);
            return true;
        }
        i = i + 1;
    }
    false
}

fn occurs_before(items: &Vec<DownloadItem>, at: usize) -> (found: bool)
    requires
        at < items.len(),
    ensures
        found == seen_before(item_models(items@), at as int),
{
    let ghost models = item_models(items@);
    let mut j: usize = 0;
    while j < at
        invariant
            j <= at < items.len(),
            models == item_models(items@),
            forall|k: int| 0 <= k < j ==> (#[trigger] models[k]).identifier != models[at as int].identifier,
        decreases at - j,
    {
        if items[j].identifier == items[at].identifier {
            assert(models[j as int].identifier == models[at as int].identifier);
            return true;
        }
        j = j + 1;
    }
    false
}

/// The strings of `existing` as mathematical values, in order.
pub open spec fn identifiers(existing: Seq<String>) -> Seq<Seq<char>> {
    Seq::new(existing.len(), |i: int| existing[i]@)
}

/// The items of a playlist that are still to be fetched: those whose
/// identifier is not among `existing`, each identifier once, in playlist
/// order.
pub fn pending_items(items: &Vec<DownloadItem>, existing: &Vec<String>) -> (result: Vec<
    DownloadItem,
>)
    ensures
        item_models(result@) == pending(item_models(items@), identifiers(existing@)),
{
    let ghost models = item_models(items@);
    let ghost known = identifiers(existing@);
    let mut result: Vec<DownloadItem> = Vec::new();
    let mut i: usize = 0;
    assert(models.take(0) =~= Seq::<DownloadItemModel>::empty());
    while i < items.len()
        invariant
            i <= items.len(),
            models == item_models(items@),
            known == identifiers(existing@),
            item_models(result@) == pending(models.take(i as int), known),
        decreases items.len() - i,
    {
        let taken = holds(existing, &items[i].identifier);
        let repeated = occurs_before(items, i);
        proof {
            let grown = models.take(i + 1);
            assert(grown.drop_last() =~= models.take(i as int));
            assert(grown.last() == models[i as int]);
            assert(seen_before(grown, i as int) == seen_before(models, i as int)) by {
                if seen_before(models, i as int) {
                    let j = choose|j: int|
                        0 <= j < i && #[trigger] models[j].identifier == models[i as int].identifier;
                    assert(grown[j].identifier == grown[i as int].identifier);
                }
                if seen_before(grown, i as int) {
                    let j = choose|j: int|
                        0 <= j < i && #[trigger] grown[j].identifier == grown[i as int].identifier;
                    assert(models[j].identifier == models[i as int].identifier);
                }
            }
        }
        if !taken && !repeated {
            let ghost before = item_models(result@);
            result.push(items[i].duplicate());
            assert(item_models(result@) =~= before.push(models[i as int]));
        }
        i = i + 1;
    }
    assert(models.take(items.len() as int) =~= models);
    result
}

/// The targets of the items of `items` that can be fetched, in order.
pub fn retrieval_targets(items: &Vec<DownloadItem>) -> (result: Vec<RetrievalTarget>)
    ensures
        target_models(result@) == targets(item_models(items@)),
{
    let ghost models = item_models(items@);
    let mut result: Vec<RetrievalTarget> = Vec::new();
    let mut i: usize = 0;
    assert(models.take(0) =~= Seq::<DownloadItemModel>::empty());
    while i < items.len()
        invariant
            i <= items.len(),
            models == item_models(items@),
            target_models(result@) == targets(models.take(i as int)),
        decreases items.len() - i,
    {
        proof {
            let grown = models.take(i + 1);
            assert(grown.drop_last() =~= models.take(i as int));
            assert(grown.last() == models[i as int]);
        }
        match items[i].retrieval_target() {
            Some(target) => {
                let ghost before = target_models(result@);
                let ghost added = target@;
                result.push(target);
                assert(target_models(result@) =~= before.push(added));
            },
            None => {},
        }
        i = i + 1;
    }
    assert(models.take(items.len() as int) =~= models);
    result
}

/// No item is fetched twice and none that exists already: the pending items
/// are items of the playlist, none of them is among the existing ones, and
/// no two of them share an identifier.
pub proof fn lemma_pending_is_sound(items: Seq<DownloadItemModel>, existing: Seq<Seq<char>>)
    ensures
        forall|k: int|
            0 <= k < pending(items, existing).len() ==> items.contains(
                #[trigger] pending(items, existing)[k],
            ) && !existing.contains(pending(items, existing)[k].identifier),
        forall|k: int, l: int|
            0 <= k < l < pending(items, existing).len() ==> (#[trigger] pending(
                items,
                existing,
            )[k]).identifier != (#[trigger] pending(items, existing)[l]).identifier,
    decreases items.len(),
{
    if items.len() > 0 {
        let front = items.drop_last();
        let last = items.len() - 1;
        lemma_pending_is_sound(front, existing);
        let kept = pending(front, existing);
        let all = pending(items, existing);
        assert forall|k: int| 0 <= k < kept.len() implies items.contains(#[trigger] kept[k]) by {
            let j = choose|j: int| 0 <= j < front.len() && front[j] == kept[k];
            assert(items[j] == kept[k]);
        }
        assert forall|k: int| 0 <= k < all.len() implies items.contains(#[trigger] all[k])
            && !existing.contains(all[k].identifier) by {
            if k < kept.len() {
                assert(all[k] == kept[k]);
            } else {
                assert(all[k] == items[last]);
            }
        }
        assert forall|k: int, l: int| 0 <= k < l < all.len() implies (#[trigger] all[k]).identifier
            != (#[trigger] all[l]).identifier by {
            assert(all[k] == kept[k]);
            if l < kept.len() {
                assert(all[l] == kept[l]);
            } else {
                let j = choose|j: int| 0 <= j < front.len() && front[j] == kept[k];
                assert(items[j].identifier == kept[k].identifier);
                assert(!seen_before(items, last));
            }
        }
    }
}

/// Nothing is forgotten: every identifier of the playlist that is not among
/// the existing ones is the identifier of a pending item.
pub proof fn lemma_pending_is_complete(
    items: Seq<DownloadItemModel>,
    existing: Seq<Seq<char>>,
    i: int,
)
    requires
        0 <= i < items.len(),
        !existing.contains(items[i].identifier),
    ensures
        exists|k: int|
            0 <= k < pending(items, existing).len() && (#[trigger] pending(
                items,
                existing,
            )[k]).identifier == items[i].identifier,
    decreases items.len(),
{
    let front = items.drop_last();
    let last = items.len() - 1;
    let kept = pending(front, existing);
    let all = pending(items, existing);
    if i < last {
        lemma_pending_is_complete(front, existing, i);
        let k = choose|k: int|
            0 <= k < kept.len() && (#[trigger] kept[k]).identifier == front[i].identifier;
        assert(all[k] == kept[k]);
    } else if seen_before(items, last) {
        let j = choose|j: int|
            0 <= j < last && #[trigger] items[j].identifier == items[last].identifier;
        lemma_pending_is_complete(front, existing, j);
        let k = choose|k: int|
            0 <= k < kept.len() && (#[trigger] kept[k]).identifier == front[j].identifier;
        assert(all[k] == kept[k]);
    } else {
        assert(all[kept.len() as int] == items[last]);
    }
}

} // verus!
