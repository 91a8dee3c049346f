//! The backend-independent model of a torrent daemon's data: torrents, the
//! parameters of an upload, and trackers.
//!
//! Every record has a mathematical view (`@`) in which text is a `Seq<char>`
//! and a list is a `Seq`; all contracts are stated over these views.

use vstd::prelude::*;

verus! {

/// The lifecycle bucket a torrent is in.
///
/// This is a deliberately coarse picture: a daemon usually knows more states
/// than these, and several of its states fall into one bucket here.
#[derive(Debug, Clone, Copy, PartialEq, Eq, Structural)]
pub enum TorrentState {
    /// Some error occurred
    Error,
    /// Torrent data files are missing
    MissingFiles,
    /// Torrent is being seeded
    Uploading,
    /// Torrent is paused, in a seeding state
    PausedUploading,
    /// Torrent is queued, in a seeding state
    QueuedUploading,
    /// Torrent is being downloaded
    Downloading,
    /// Torrent is paused, in a downloading state
    PausedDownloading,
    /// Torrent is queued, in a downloading state
    QueuedDownloading,
    /// The state is unknown
    Unknown,
}

impl Default for TorrentState {
    fn default() -> (state: Self)
        ensures
            state == TorrentState::Unknown,
    {
        TorrentState::Unknown
    }
}

/// What a daemon knows about one torrent. The hash identifies the torrent;
/// every other field is metadata that may be stale.
#[derive(Debug, PartialEq, Eq)]
pub struct TorrentInfo {
    pub name: String,
    pub trackers: Vec<String>,
    pub category: String,
    pub tags: Vec<String>,
    pub hash: String,
    pub state: TorrentState,
}

/// The mathematical value of a [`TorrentInfo`].
pub struct TorrentInfoView {
    pub name: Seq<char>,
    pub trackers: Seq<Seq<char>>,
    pub category: Seq<char>,
    pub tags: Seq<Seq<char>>,
    pub hash: Seq<char>,
    pub state: TorrentState,
}

impl TorrentInfoView {
    /// The record with no text, no trackers, no tags and an unknown state.
    pub open spec fn blank() -> TorrentInfoView {
        TorrentInfoView {
            name: Seq::empty(),
            trackers: Seq::empty(),
            category: Seq::empty(),
            tags: Seq::empty(),
            hash: Seq::empty(),
            state: TorrentState::Unknown,
        }
    }
}

impl View for TorrentInfo {
    type V = TorrentInfoView;

    open spec fn view(&self) -> TorrentInfoView {
        TorrentInfoView {
            name: self.name@,
            trackers: self.trackers.deep_view(),
            category: self.category@,
            tags: self.tags.deep_view(),
            hash: self.hash@,
            state: self.state,
        }
    }
}

impl DeepView for TorrentInfo {
    type V = TorrentInfoView;

    open spec fn deep_view(&self) -> TorrentInfoView {
        self@
    }
}

impl Default for TorrentInfo {
    fn default() -> (info: Self)
        ensures
            info@ == TorrentInfoView::blank(),
    {
        let info = TorrentInfo {
            name: String::new(),
            trackers: Vec::new(),
            category: String::new(),
            tags: Vec::new(),
            hash: String::new(),
            state: TorrentState::Unknown,
        };
        assert(info.trackers.deep_view() =~= Seq::<Seq<char>>::empty());
        assert(info.tags.deep_view() =~= Seq::<Seq<char>>::empty());
        info
    }
}

impl Clone for TorrentInfo {
    fn clone(&self) -> (info: Self)
        ensures
            info@ == self@,
    {
        TorrentInfo {
            name: self.name.clone(),
            trackers: clone_strings(&self.trackers),
            category: self.category.clone(),
            tags: clone_strings(&self.tags),
            hash: self.hash.clone(),
            state: self.state,
        }
    }
}

impl TorrentInfo {
    /// A torrent known by its hash alone, as a caller builds it to name the
    /// torrent in a later operation: every other field is blank.
    pub fn from_hash(hash: String) -> (info: TorrentInfo)
        ensures
            info@ == (TorrentInfoView { hash: hash@, ..TorrentInfoView::blank() }),
    {
        let mut def = TorrentInfo::default();
        def.hash = hash;
        def
    }
}

/// The parameters of one upload: any number of remote URLs and of torrent
/// files given as bytes, each with its file name, and the optional tags,
/// category and paused-on-add flag.
#[derive(Debug, PartialEq, Eq)]
pub struct TorrentUpload {
    /// URL(s) of the torrent files.
    pub urls: Vec<String>,
    /// Torrent file data that is being added: file name and bytes.
    pub torrents: Vec<(String, Vec<u8>)>,
    pub tags: Option<Vec<String>>,
    pub category: Option<String>,
    pub paused: Option<bool>,
}

/// The mathematical value of a [`TorrentUpload`].
pub struct TorrentUploadView {
    pub urls: Seq<Seq<char>>,
    pub torrents: Seq<(Seq<char>, Seq<u8>)>,
    pub tags: Option<Seq<Seq<char>>>,
    pub category: Option<Seq<char>>,
    pub paused: Option<bool>,
}

impl TorrentUploadView {
    /// The upload that names nothing and sets nothing.
    pub open spec fn blank() -> TorrentUploadView {
        TorrentUploadView {
            urls: Seq::empty(),
            torrents: Seq::empty(),
            tags: None,
            category: None,
            paused: None,
        }
    }

    /// This upload with one more URL, after those it has.
    pub open spec fn with_url(self, url: Seq<char>) -> TorrentUploadView {
        TorrentUploadView { urls: self.urls.push(url), ..self }
    }

    /// This upload with one more torrent file, after those it has.
    pub open spec fn with_torrent_data(self, filename: Seq<char>, data: Seq<u8>) -> TorrentUploadView {
        TorrentUploadView { torrents: self.torrents.push((filename, data)), ..self }
    }

    /// This upload with `tags` as its tag list, whatever it had.
    pub open spec fn with_tags(self, tags: Seq<Seq<char>>) -> TorrentUploadView {
        TorrentUploadView { tags: Some(tags), ..self }
    }

    /// This upload with one more tag. Where it has no tag list, the tag
    /// starts one.
    pub open spec fn with_tag(self, tag: Seq<char>) -> TorrentUploadView {
        TorrentUploadView {
            tags: Some(
                match self.tags {
                    Some(tags) => tags.push(tag),
                    None => seq![tag],
                },
            ),
            ..self
        }
    }

    /// This upload with `category` as its category, whatever it had.
    pub open spec fn with_category(self, category: Seq<char>) -> TorrentUploadView {
        TorrentUploadView { category: Some(category), ..self }
    }

    /// This upload, to be paused when it is added.
    pub open spec fn with_paused(self) -> TorrentUploadView {
        TorrentUploadView { paused: Some(true), ..self }
    }
}

impl View for TorrentUpload {
    type V = TorrentUploadView;

    open spec fn view(&self) -> TorrentUploadView {
        TorrentUploadView {
            urls: self.urls.deep_view(),
            torrents: self.torrents.deep_view(),
            tags: self.tags.deep_view(),
            category: self.category.deep_view(),
            paused: self.paused,
        }
    }
}

impl DeepView for TorrentUpload {
    type V = TorrentUploadView;

    open spec fn deep_view(&self) -> TorrentUploadView {
        self@
    }
}

impl Default for TorrentUpload {
    fn default() -> (upload: Self)
        ensures
            upload@ == TorrentUploadView::blank(),
    {
        let upload = TorrentUpload {
            urls: Vec::new(),
            torrents: Vec::new(),
            tags: None,
            category: None,
            paused: None,
        };
        assert(upload.urls.deep_view() =~= Seq::<Seq<char>>::empty());
        assert(upload.torrents.deep_view() =~= Seq::<(Seq<char>, Seq<u8>)>::empty());
        upload
    }
}

impl Clone for TorrentUpload {
    fn clone(&self) -> (upload: Self)
        ensures
            upload@ == self@,
    {
        TorrentUpload {
            urls: clone_strings(&self.urls),
            torrents: clone_torrent_files(&self.torrents),
            tags: clone_tags(&self.tags),
            category: self.category.clone(),
            paused: self.paused,
        }
    }
}

impl TorrentUpload {
    /// A builder that starts from the blank upload.
    pub fn builder() -> (builder: TorrentUploadBuilder)
        ensures
            builder@ == TorrentUploadView::blank(),
    {
        TorrentUploadBuilder::default()
    }
}

/// Gathers the parameters of an upload step by step. Its view is the upload
/// that [`TorrentUploadBuilder::build`] would hand out now.
#[derive(Debug)]
pub struct TorrentUploadBuilder {
    params: TorrentUpload,
}

impl View for TorrentUploadBuilder {
    type V = TorrentUploadView;

    closed spec fn view(&self) -> TorrentUploadView {
        self.params@
    }
}

impl Default for TorrentUploadBuilder {
    fn default() -> (builder: Self)
        ensures
            builder@ == TorrentUploadView::blank(),
    {
        TorrentUploadBuilder { params: TorrentUpload::default() }
    }
}

impl TorrentUploadBuilder {
    /// Appends one URL.
    pub fn url(&mut self, url: &str) -> (builder: &mut Self)
        ensures
            builder@ == old(self)@.with_url(url@),
            *final(self) == *final(builder),
    {
        self.params.urls.push(url.to_string());
        assert(self.params.urls.deep_view() =~= old(self).params.urls.deep_view().push(url@));
        self
    }

    /// Appends one torrent file, given as its file name and its bytes.
    pub fn torrent_data(&mut self, filename: String, data: Vec<u8>) -> (builder: &mut Self)
        ensures
            builder@ == old(self)@.with_torrent_data(filename@, data@),
            *final(self) == *final(builder),
    {
        assert(data.deep_view() =~= data@);
        let torrents = &mut self.params.torrents;
        torrents.push((filename, data));
        assert(self.params.torrents.deep_view() =~= old(self).params.torrents.deep_view().push(
            (filename@, data@),
        ));
        self
    }

    /// Sets the tag list, replacing any list set or gathered before.
    pub fn tags(&mut self, tags: Vec<String>) -> (builder: &mut Self)
        ensures
            builder@ == old(self)@.with_tags(tags.deep_view()),
            *final(self) == *final(builder),
    {
        self.params.tags = Some(tags);
        self
    }

    /// Appends one tag. Where no tag list exists yet, the list is started with
    /// this tag: no tag is dropped.
    pub fn tag(&mut self, tag: String) -> (builder: &mut Self)
        ensures
            builder@ == old(self)@.with_tag(tag@),
            *final(self) == *final(builder),
    {
        let mut tags = match self.params.tags.take() {
            Some(tags) => tags,
            None => Vec::new(),
        };
        tags.push(tag);
        assert(tags.deep_view() =~= old(self)@.with_tag(tag@).tags->Some_0);
        self.params.tags = Some(tags);
        self
    }

    /// Sets the category.
    pub fn category(&mut self, category: String) -> (builder: &mut Self)
        ensures
            builder@ == old(self)@.with_category(category@),
            *final(self) == *final(builder),
    {
        self.params.category = Some(category);
        self
    }

    /// Sets the upload to be paused when it is added.
    pub fn paused(&mut self) -> (builder: &mut Self)
        ensures
            builder@ == old(self)@.with_paused(),
            *final(self) == *final(builder),
    {
        self.params.paused = Some(true);
        self
    }

    /// The upload gathered so far. The builder keeps its contents and can be
    /// used again.
    pub fn build(&self) -> (upload: TorrentUpload)
        ensures
            upload@ == self@,
    {
        self.params.clone()
    }
}

/// Two URLs and one torrent file, gathered in this order from nothing, give
/// an upload of exactly the two URLs in that order and of the one file,
/// name and bytes as they were given; nothing else is set.
pub proof fn urls_and_file_are_kept_as_given(
    first: Seq<char>,
    second: Seq<char>,
    filename: Seq<char>,
    data: Seq<u8>,
)
    ensures
        TorrentUploadView::blank().with_url(first).with_url(second).with_torrent_data(
            filename,
            data,
        ) == (TorrentUploadView {
            urls: seq![first, second],
            torrents: seq![(filename, data)],
            tags: None,
            category: None,
            paused: None,
        }),
{
    let upload = TorrentUploadView::blank().with_url(first).with_url(second).with_torrent_data(
        filename,
        data,
    );
    assert(upload.urls =~= seq![first, second]);
    assert(upload.torrents =~= seq![(filename, data)]);
}

/// A tag added to an upload without a tag list starts the list; a tag added
/// to an upload with a list comes after the tags of that list. Either way
/// the tag is in the upload, and nothing else of the upload changes.
pub proof fn tag_is_never_dropped(upload: TorrentUploadView, tag: Seq<char>)
    ensures
        upload.tags is None ==> upload.with_tag(tag).tags == Some(seq![tag]),
        upload.tags matches Some(tags) ==> upload.with_tag(tag).tags == Some(tags.push(tag)),
        upload.with_tag(tag).tags matches Some(tags) && tags.len() > 0 && tags.last() == tag,
        upload.with_tag(tag) == (TorrentUploadView { tags: upload.with_tag(tag).tags, ..upload }),
{
}

/// One tracker of a torrent.
#[derive(Debug, PartialEq, Eq)]
pub struct TorrentTracker {
    /// Tracker URL
    pub url: String,
    /// Tracker status
    pub status: TrackerStatus,
    /// Tracker message: free text that the tracker's operators choose; a
    /// daemon need not report one.
    pub message: Option<String>,
}

/// The mathematical value of a [`TorrentTracker`].
pub struct TorrentTrackerView {
    pub url: Seq<char>,
    pub status: TrackerStatus,
    pub message: Option<Seq<char>>,
}

impl View for TorrentTracker {
    type V = TorrentTrackerView;

    open spec fn view(&self) -> TorrentTrackerView {
        TorrentTrackerView {
            url: self.url@,
            status: self.status,
            message: self.message.deep_view(),
        }
    }
}

impl DeepView for TorrentTracker {
    type V = TorrentTrackerView;

    open spec fn deep_view(&self) -> TorrentTrackerView {
        self@
    }
}

/// The status of one tracker.
#[derive(Debug, Clone, Copy, PartialEq, Eq, Structural)]
pub enum TrackerStatus {
    /// Tracker is disabled (used for DHT, PeX, and LSD)
    Disabled,
    /// Tracker has not been contacted yet
    NotContacted,
    /// Tracker has been contacted and is working
    Working,
    /// Tracker is updating
    Updating,
    /// Tracker has been contacted, but it is not working (or doesn't send
    /// proper replies)
    NotWorking,
}

/// A copy of a list of strings.
pub(crate) fn clone_strings(list: &Vec<String>) -> (copy: Vec<String>)
    ensures
        copy.deep_view() == list.deep_view(),
{
    let copy = list.clone();
    assert(copy@ =~= list@);
    assert(copy.deep_view() =~= list.deep_view());
    copy
}

/// A copy of an optional tag list.
pub(crate) fn clone_tags(tags: &Option<Vec<String>>) -> (copy: Option<Vec<String>>)
    ensures
        copy.deep_view() == tags.deep_view(),
{
    match tags {
        Some(list) => Some(clone_strings(list)),
        None => None,
    }
}

/// A copy of a list of torrent files, names and bytes.
pub(crate) fn clone_torrent_files(files: &Vec<(String, Vec<u8>)>) -> (copy: Vec<(String, Vec<u8>)>)
    ensures
        copy.deep_view() == files.deep_view(),
{
    let mut copy: Vec<(String, Vec<u8>)> = Vec::new();
    let mut i: usize = 0;
    while i < files.len()
        invariant
            i <= files.len(),
            copy.len() == i,
            forall|k: int| 0 <= k < i ==> copy[k].deep_view() == #[trigger] files[k].deep_view(),
        decreases files.len() - i,
    {
        let name = files[i].0.clone();
        let data = files[i].1.clone();
        copy.push((name, data));
        i += 1;
    }
    assert(copy.deep_view() =~= files.deep_view());
    copy
}

} // verus!
