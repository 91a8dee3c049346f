//! The qBittorrent binding: the daemon's own records, and how they read in
//! the domain model and the domain's records at the daemon.
//!
//! The daemon's records are held here as plain values (`Qb...`), each with a
//! mathematical view. What this module decides is how a record of one side
//! reads on the other:
//!
//! * a tracker status has exactly one counterpart on each side;
//! * many daemon states fall into one domain state, so the way back from the
//!   domain leaves the daemon's state unknown;
//! * the daemon reports a single tracker per torrent. From the daemon that
//!   tracker becomes a list of one; towards the daemon only the first
//!   tracker of a list is kept, and an empty list gives empty text.

use crate::client::ClientResult;
use crate::error::ClientError;
use crate::torrent::{
    clone_strings, clone_tags, clone_torrent_files, TorrentInfo, TorrentInfoView, TorrentState,
    TorrentTracker, TorrentTrackerView, TorrentUpload, TorrentUploadView, TrackerStatus,
};
use vstd::prelude::*;
use vstd::std_specs::convert::FromSpecImpl;

verus! {

/// The status of a tracker as the daemon reports it.
#[derive(Debug, Clone, Copy, PartialEq, Eq, Structural)]
pub enum QbTrackerStatus {
    Disabled,
    NotContacted,
    Working,
    Updating,
    NotWorking,
}

/// The state of a torrent as the daemon reports it.
#[derive(Debug, Clone, Copy, PartialEq, Eq, Structural)]
pub enum QbTorrentState {
    Error,
    MissingFiles,
    Uploading,
    PausedUP,
    QueuedUP,
    StalledUP,
    CheckingUP,
    ForcedUP,
    Allocating,
    Downloading,
    MetaDownloading,
    PausedDL,
    QueuedDL,
    StalledDL,
    CheckingDL,
    ForcedDL,
    CheckingResumeData,
    Moving,
    Unknown,
}

/// One torrent as the daemon reports it: like the domain's record, but with a
/// single tracker and the daemon's own state.
#[derive(Debug, PartialEq, Eq)]
pub struct QbTorrentInfo {
    pub name: String,
    pub tracker: String,
    pub category: String,
    pub tags: Vec<String>,
    pub hash: String,
    pub state: QbTorrentState,
}

/// The mathematical value of a [`QbTorrentInfo`].
pub struct QbTorrentInfoView {
    pub name: Seq<char>,
    pub tracker: Seq<char>,
    pub category: Seq<char>,
    pub tags: Seq<Seq<char>>,
    pub hash: Seq<char>,
    pub state: QbTorrentState,
}

impl View for QbTorrentInfo {
    type V = QbTorrentInfoView;

    open spec fn view(&self) -> QbTorrentInfoView {
        QbTorrentInfoView {
            name: self.name@,
            tracker: self.tracker@,
            category: self.category@,
            tags: self.tags.deep_view(),
            hash: self.hash@,
            state: self.state,
        }
    }
}

impl DeepView for QbTorrentInfo {
    type V = QbTorrentInfoView;

    open spec fn deep_view(&self) -> QbTorrentInfoView {
        self@
    }
}

/// The parameters of an upload as the daemon takes them.
#[derive(Debug, PartialEq, Eq)]
pub struct QbTorrentUpload {
    pub urls: Vec<String>,
    pub torrents: Vec<(String, Vec<u8>)>,
    pub tags: Option<Vec<String>>,
    pub category: Option<String>,
    pub paused: Option<bool>,
}

/// The mathematical value of a [`QbTorrentUpload`].
pub struct QbTorrentUploadView {
    pub urls: Seq<Seq<char>>,
    pub torrents: Seq<(Seq<char>, Seq<u8>)>,
    pub tags: Option<Seq<Seq<char>>>,
    pub category: Option<Seq<char>>,
    pub paused: Option<bool>,
}

impl View for QbTorrentUpload {
    type V = QbTorrentUploadView;

    open spec fn view(&self) -> QbTorrentUploadView {
        QbTorrentUploadView {
            urls: self.urls.deep_view(),
            torrents: self.torrents.deep_view(),
            tags: self.tags.deep_view(),
            category: self.category.deep_view(),
            paused: self.paused,
        }
    }
}

impl DeepView for QbTorrentUpload {
    type V = QbTorrentUploadView;

    open spec fn deep_view(&self) -> QbTorrentUploadView {
        self@
    }
}

/// One tracker as the daemon reports it. The message is always there, though
/// it may be empty.
#[derive(Debug, PartialEq, Eq)]
pub struct QbTorrentTracker {
    pub url: String,
    pub status: QbTrackerStatus,
    pub message: String,
}

/// The mathematical value of a [`QbTorrentTracker`].
pub struct QbTorrentTrackerView {
    pub url: Seq<char>,
    pub status: QbTrackerStatus,
    pub message: Seq<char>,
}

impl View for QbTorrentTracker {
    type V = QbTorrentTrackerView;

    open spec fn view(&self) -> QbTorrentTrackerView {
        QbTorrentTrackerView { url: self.url@, status: self.status, message: self.message@ }
    }
}

impl DeepView for QbTorrentTracker {
    type V = QbTorrentTrackerView;

    open spec fn deep_view(&self) -> QbTorrentTrackerView {
        self@
    }
}

/// A failure as the daemon's client reports it. The transport and the
/// decoder give a cause, held here as its text.
#[derive(Debug, PartialEq, Eq)]
pub enum QbClientError {
    /// The transport failed.
    Http(String),
    /// The daemon rejected the session or the credentials.
    Authorization,
    /// The response was no JSON of the expected shape.
    Json(String),
}

impl QbTrackerStatus {
    /// The domain status that stands for this status.
    pub open spec fn to_domain(self) -> TrackerStatus {
        match self {
            QbTrackerStatus::Disabled => TrackerStatus::Disabled,
            QbTrackerStatus::NotContacted => TrackerStatus::NotContacted,
            QbTrackerStatus::Working => TrackerStatus::Working,
            QbTrackerStatus::Updating => TrackerStatus::Updating,
            QbTrackerStatus::NotWorking => TrackerStatus::NotWorking,
        }
    }
}

impl QbTorrentState {
    /// The domain state that this state falls into.
    ///
    /// Seeding with or without peers, forced seeding and checking after
    /// completion all count as uploading. Downloading with or without peers,
    /// forced downloading, allocating, fetching metadata, checking, and
    /// moving all count as downloading.
    pub open spec fn to_domain(self) -> TorrentState {
        match self {
            QbTorrentState::Error => TorrentState::Error,
            QbTorrentState::MissingFiles => TorrentState::MissingFiles,
            QbTorrentState::Uploading
            | QbTorrentState::StalledUP
            | QbTorrentState::ForcedUP
            | QbTorrentState::CheckingUP => TorrentState::Uploading,
            QbTorrentState::PausedUP => TorrentState::PausedUploading,
            QbTorrentState::QueuedUP => TorrentState::QueuedUploading,
            QbTorrentState::Downloading
            | QbTorrentState::StalledDL
            | QbTorrentState::ForcedDL
            | QbTorrentState::Allocating
            | QbTorrentState::MetaDownloading
            | QbTorrentState::CheckingDL
            | QbTorrentState::CheckingResumeData
            | QbTorrentState::Moving => TorrentState::Downloading,
            QbTorrentState::PausedDL => TorrentState::PausedDownloading,
            QbTorrentState::QueuedDL => TorrentState::QueuedDownloading,
            QbTorrentState::Unknown => TorrentState::Unknown,
        }
    }
}

impl QbTorrentInfoView {
    /// The domain record of this torrent: the single tracker becomes a list
    /// of one.
    pub open spec fn to_domain(self) -> TorrentInfoView {
        TorrentInfoView {
            name: self.name,
            trackers: seq![self.tracker],
            category: self.category,
            tags: self.tags,
            hash: self.hash,
            state: self.state.to_domain(),
        }
    }
}

impl TorrentInfoView {
    /// The one tracker that the daemon's record has room for: the first of
    /// the list, or empty text where the list is empty.
    pub open spec fn primary_tracker(self) -> Seq<char> {
        if self.trackers.len() > 0 {
            self.trackers[0]
        } else {
            Seq::empty()
        }
    }

    /// The daemon's record of this torrent. The state is not carried over:
    /// several daemon states stand behind one domain state, so the record
    /// says unknown.
    pub open spec fn to_backend(self) -> QbTorrentInfoView {
        QbTorrentInfoView {
            name: self.name,
            tracker: self.primary_tracker(),
            category: self.category,
            tags: self.tags,
            hash: self.hash,
            state: QbTorrentState::Unknown,
        }
    }
}

impl QbTorrentUploadView {
    /// The domain's upload with the same parameters.
    pub open spec fn to_domain(self) -> TorrentUploadView {
        TorrentUploadView {
            urls: self.urls,
            torrents: self.torrents,
            tags: self.tags,
            category: self.category,
            paused: self.paused,
        }
    }
}

impl TorrentUploadView {
    /// The daemon's upload with the same parameters.
    pub open spec fn to_backend(self) -> QbTorrentUploadView {
        QbTorrentUploadView {
            urls: self.urls,
            torrents: self.torrents,
            tags: self.tags,
            category: self.category,
            paused: self.paused,
        }
    }
}

impl QbTorrentTrackerView {
    /// The domain record of this tracker: the message is always present.
    pub open spec fn to_domain(self) -> TorrentTrackerView {
        TorrentTrackerView {
            url: self.url,
            status: self.status.to_domain(),
            message: Some(self.message),
        }
    }
}

impl From<QbTorrentState> for TorrentState {
    /// The bucket that a state of the daemon falls into. Every state has
    /// one, and always the same.
    fn from(state: QbTorrentState) -> (domain: Self)
        ensures
            domain == state.to_domain(),
    {
        match state {
            QbTorrentState::Error => TorrentState::Error,
            QbTorrentState::MissingFiles => TorrentState::MissingFiles,
            QbTorrentState::Uploading
            | QbTorrentState::StalledUP
            | QbTorrentState::ForcedUP
            | QbTorrentState::CheckingUP => TorrentState::Uploading,
            QbTorrentState::PausedUP => TorrentState::PausedUploading,
            QbTorrentState::QueuedUP => TorrentState::QueuedUploading,
            QbTorrentState::Downloading
            | QbTorrentState::StalledDL
            | QbTorrentState::ForcedDL
            | QbTorrentState::Allocating
            | QbTorrentState::MetaDownloading
            | QbTorrentState::CheckingDL
            | QbTorrentState::CheckingResumeData
            | QbTorrentState::Moving => TorrentState::Downloading,
            QbTorrentState::PausedDL => TorrentState::PausedDownloading,
            QbTorrentState::QueuedDL => TorrentState::QueuedDownloading,
            QbTorrentState::Unknown => TorrentState::Unknown,
        }
    }
}

impl FromSpecImpl<QbTorrentState> for TorrentState {
    open spec fn obeys_from_spec() -> bool {
        true
    }

    open spec fn from_spec(state: QbTorrentState) -> TorrentState {
        state.to_domain()
    }
}

impl From<QbTrackerStatus> for TrackerStatus {
    /// The domain's name for a tracker status of the daemon.
    fn from(status: QbTrackerStatus) -> (domain: Self)
        ensures
            domain == status.to_domain(),
    {
        match status {
            QbTrackerStatus::Disabled => TrackerStatus::Disabled,
            QbTrackerStatus::NotContacted => TrackerStatus::NotContacted,
            QbTrackerStatus::Working => TrackerStatus::Working,
            QbTrackerStatus::Updating => TrackerStatus::Updating,
            QbTrackerStatus::NotWorking => TrackerStatus::NotWorking,
        }
    }
}

impl FromSpecImpl<QbTrackerStatus> for TrackerStatus {
    open spec fn obeys_from_spec() -> bool {
        true
    }

    open spec fn from_spec(status: QbTrackerStatus) -> TrackerStatus {
        status.to_domain()
    }
}

impl From<&QbTorrentInfo> for TorrentInfo {
    /// A torrent of the daemon as the domain sees it: field for field, with
    /// the single tracker as a list of one and the state in its bucket.
    fn from(torrent: &QbTorrentInfo) -> (domain: Self)
        ensures
            domain@ == torrent@.to_domain(),
    {
        let trackers = vec![torrent.tracker.clone()];
        assert(trackers.deep_view() =~= seq![torrent.tracker@]);
        TorrentInfo {
            name: torrent.name.clone(),
            trackers,
            category: torrent.category.clone(),
            tags: clone_strings(&torrent.tags),
            hash: torrent.hash.clone(),
            state: torrent.state.into(),
        }
    }
}

impl FromSpecImpl<&QbTorrentInfo> for TorrentInfo {
    /// The result is fixed by its view, not as a value: see the contract of
    /// `from`.
    open spec fn obeys_from_spec() -> bool {
        false
    }

    open spec fn from_spec(torrent: &QbTorrentInfo) -> TorrentInfo {
        choose|domain: TorrentInfo| domain@ == torrent@.to_domain()
    }
}

impl From<&TorrentInfo> for QbTorrentInfo {
    /// The record that names a torrent at the daemon: field for field, with
    /// the first tracker alone (empty text where there is none) and the
    /// state unknown. A torrent without trackers is no error.
    fn from(torrent: &TorrentInfo) -> (backend: Self)
        ensures
            backend@ == torrent@.to_backend(),
    {
        let tracker = if torrent.trackers.len() > 0 {
            torrent.trackers[0].clone()
        } else {
            String::new()
        };
        QbTorrentInfo {
            name: torrent.name.clone(),
            tracker,
            category: torrent.category.clone(),
            tags: clone_strings(&torrent.tags),
            hash: torrent.hash.clone(),
            state: QbTorrentState::Unknown,
        }
    }
}

impl FromSpecImpl<&TorrentInfo> for QbTorrentInfo {
    /// The result is fixed by its view, not as a value: see the contract of
    /// `from`.
    open spec fn obeys_from_spec() -> bool {
        false
    }

    open spec fn from_spec(torrent: &TorrentInfo) -> QbTorrentInfo {
        choose|backend: QbTorrentInfo| backend@ == torrent@.to_backend()
    }
}

impl From<TorrentInfo> for QbTorrentInfo {
    /// As for a borrowed torrent.
    fn from(torrent: TorrentInfo) -> (backend: Self)
        ensures
            backend@ == torrent@.to_backend(),
    {
        QbTorrentInfo::from(&torrent)
    }
}

impl FromSpecImpl<TorrentInfo> for QbTorrentInfo {
    /// The result is fixed by its view, not as a value: see the contract of
    /// `from`.
    open spec fn obeys_from_spec() -> bool {
        false
    }

    open spec fn from_spec(torrent: TorrentInfo) -> QbTorrentInfo {
        choose|backend: QbTorrentInfo| backend@ == torrent@.to_backend()
    }
}

impl From<QbTorrentUpload> for TorrentUpload {
    /// An upload of the daemon as the domain sees it: the same parameters.
    fn from(upload: QbTorrentUpload) -> (domain: Self)
        ensures
            domain@ == upload@.to_domain(),
    {
        TorrentUpload {
            urls: upload.urls,
            torrents: upload.torrents,
            tags: upload.tags,
            category: upload.category,
            paused: upload.paused,
        }
    }
}

impl FromSpecImpl<QbTorrentUpload> for TorrentUpload {
    open spec fn obeys_from_spec() -> bool {
        true
    }

    open spec fn from_spec(upload: QbTorrentUpload) -> TorrentUpload {
        TorrentUpload {
            urls: upload.urls,
            torrents: upload.torrents,
            tags: upload.tags,
            category: upload.category,
            paused: upload.paused,
        }
    }
}

impl From<&TorrentUpload> for QbTorrentUpload {
    /// The upload as the daemon takes it: the same parameters.
    fn from(upload: &TorrentUpload) -> (backend: Self)
        ensures
            backend@ == upload@.to_backend(),
    {
        QbTorrentUpload {
            urls: clone_strings(&upload.urls),
            torrents: clone_torrent_files(&upload.torrents),
            tags: clone_tags(&upload.tags),
            category: upload.category.clone(),
            paused: upload.paused,
        }
    }
}

impl FromSpecImpl<&TorrentUpload> for QbTorrentUpload {
    /// The result is fixed by its view, not as a value: see the contract of
    /// `from`.
    open spec fn obeys_from_spec() -> bool {
        false
    }

    open spec fn from_spec(upload: &TorrentUpload) -> QbTorrentUpload {
        choose|backend: QbTorrentUpload| backend@ == upload@.to_backend()
    }
}

impl From<&QbTorrentTracker> for TorrentTracker {
    /// A tracker of the daemon as the domain sees it: the message, which
    /// the daemon always gives, is present.
    fn from(tracker: &QbTorrentTracker) -> (domain: Self)
        ensures
            domain@ == tracker@.to_domain(),
    {
        TorrentTracker {
            url: tracker.url.clone(),
            status: tracker.status.into(),
            message: Some(tracker.message.clone()),
        }
    }
}

impl FromSpecImpl<&QbTorrentTracker> for TorrentTracker {
    open spec fn obeys_from_spec() -> bool {
        true
    }

    open spec fn from_spec(tracker: &QbTorrentTracker) -> TorrentTracker {
        TorrentTracker {
            url: tracker.url,
            status: tracker.status.to_domain(),
            message: Some(tracker.message),
        }
    }
}

/// The torrents of a listing, each as the domain sees it, in the daemon's
/// order.
pub fn torrents_from_backend(torrents: &Vec<QbTorrentInfo>) -> (list: Vec<TorrentInfo>)
    ensures
        list.len() == torrents.len(),
        forall|i: int| 0 <= i < list.len() ==> #[trigger] list[i]@ == torrents[i]@.to_domain(),
{
    let mut list: Vec<TorrentInfo> = Vec::new();
    let mut i: usize = 0;
    while i < torrents.len()
        invariant
            i <= torrents.len(),
            list.len() == i,
            forall|k: int| 0 <= k < i ==> #[trigger] list[k]@ == torrents[k]@.to_domain(),
        decreases torrents.len() - i,
    {
        list.push(TorrentInfo::from(&torrents[i]));
        i += 1;
    }
    list
}

/// The trackers of a listing, each as the domain sees it, in the daemon's
/// order.
pub fn trackers_from_backend(trackers: &Vec<QbTorrentTracker>) -> (list: Vec<TorrentTracker>)
    ensures
        list.len() == trackers.len(),
        forall|i: int| 0 <= i < list.len() ==> #[trigger] list[i]@ == trackers[i]@.to_domain(),
{
    let mut list: Vec<TorrentTracker> = Vec::new();
    let mut i: usize = 0;
    while i < trackers.len()
        invariant
            i <= trackers.len(),
            list.len() == i,
            forall|k: int| 0 <= k < i ==> #[trigger] list[k]@ == trackers[k]@.to_domain(),
        decreases trackers.len() - i,
    {
        list.push(TorrentTracker::from(&trackers[i]));
        i += 1;
    }
    list
}

/// The daemon's records of a batch of torrents, in the caller's order. An
/// empty batch gives an empty list.
pub fn torrents_to_backend(torrents: &Vec<TorrentInfo>) -> (list: Vec<QbTorrentInfo>)
    ensures
        list.len() == torrents.len(),
        forall|i: int| 0 <= i < list.len() ==> #[trigger] list[i]@ == torrents[i]@.to_backend(),
{
    let mut list: Vec<QbTorrentInfo> = Vec::new();
    let mut i: usize = 0;
    while i < torrents.len()
        invariant
            i <= torrents.len(),
            list.len() == i,
            forall|k: int| 0 <= k < i ==> #[trigger] list[k]@ == torrents[k]@.to_backend(),
        decreases torrents.len() - i,
    {
        list.push(QbTorrentInfo::from(&torrents[i]));
        i += 1;
    }
    list
}

/// What the caller gets for an answer of the daemon whose value the domain
/// takes as it is (nothing, or a list of tags): that value, or the failure
/// as the domain names it. No failure is swallowed and none is made up.
pub fn client_result<T>(answer: Result<T, QbClientError>) -> (result: ClientResult<T>)
    ensures
        answer matches Ok(value) ==> result == Ok::<T, ClientError>(value),
        answer matches Err(err) ==> result == Err::<T, ClientError>(err.to_domain()),
{
    match answer {
        Ok(value) => Ok(value),
        Err(err) => Err(ClientError::from(err)),
    }
}

/// What the caller gets for the daemon's answer to a listing of torrents:
/// the torrents in the daemon's order, each as the domain sees it, or the
/// failure as the domain names it.
pub fn torrent_list_result(answer: Result<Vec<QbTorrentInfo>, QbClientError>) -> (result: ClientResult<
    Vec<TorrentInfo>,
>)
    ensures
        answer matches Ok(torrents) ==> result matches Ok(list) && list.len() == torrents.len()
            && forall|i: int|
            0 <= i < list.len() ==> #[trigger] list[i]@ == torrents[i]@.to_domain(),
        answer matches Err(err) ==> result == Err::<Vec<TorrentInfo>, ClientError>(
            err.to_domain(),
        ),
{
    match answer {
        Ok(torrents) => Ok(torrents_from_backend(&torrents)),
        Err(err) => Err(ClientError::from(err)),
    }
}

/// What the caller gets for the daemon's answer to a listing of the
/// trackers of one torrent: the trackers in the daemon's order, each as the
/// domain sees it, or the failure as the domain names it.
pub fn tracker_list_result(answer: Result<Vec<QbTorrentTracker>, QbClientError>) -> (result: ClientResult<
    Vec<TorrentTracker>,
>)
    ensures
        answer matches Ok(trackers) ==> result matches Ok(list) && list.len() == trackers.len()
            && forall|i: int|
            0 <= i < list.len() ==> #[trigger] list[i]@ == trackers[i]@.to_domain(),
        answer matches Err(err) ==> result == Err::<Vec<TorrentTracker>, ClientError>(
            err.to_domain(),
        ),
{
    match answer {
        Ok(trackers) => Ok(trackers_from_backend(&trackers)),
        Err(err) => Err(ClientError::from(err)),
    }
}

/// Two daemon statuses with the same domain status are the same status.
pub proof fn tracker_status_mapping_is_injective(a: QbTrackerStatus, b: QbTrackerStatus)
    requires
        a.to_domain() == b.to_domain(),
    ensures
        a == b,
{
}

/// Every domain status is the status of some daemon status: together with
/// injectivity, the mapping of tracker statuses is one to one and onto.
pub proof fn tracker_status_mapping_is_surjective(status: TrackerStatus)
    ensures
        exists|backend: QbTrackerStatus| backend.to_domain() == status,
{
    let backend = match status {
        TrackerStatus::Disabled => QbTrackerStatus::Disabled,
        TrackerStatus::NotContacted => QbTrackerStatus::NotContacted,
        TrackerStatus::Working => QbTrackerStatus::Working,
        TrackerStatus::Updating => QbTrackerStatus::Updating,
        TrackerStatus::NotWorking => QbTrackerStatus::NotWorking,
    };
    assert(backend.to_domain() == status);
}

/// Only the daemon's unknown state reads as unknown: every state that the
/// daemon names has a bucket of its own kind.
pub proof fn unknown_state_stands_for_unknown_alone(state: QbTorrentState)
    ensures
        state.to_domain() == TorrentState::Unknown <==> state == QbTorrentState::Unknown,
{
}

/// Two failures of the daemon's client that read the same in the domain
/// are the same failure: no kind and no cause is lost.
pub proof fn error_mapping_is_injective(a: QbClientError, b: QbClientError)
    requires
        a.to_domain() == b.to_domain(),
    ensures
        a == b,
{
}

/// Every failure of the domain is what some failure of the daemon's client
/// reads as: the three kinds of one side are the three kinds of the other.
pub proof fn error_mapping_is_surjective(err: ClientError)
    ensures
        exists|backend: QbClientError| backend.to_domain() == err,
{
    let backend = match err {
        ClientError::Http(cause) => QbClientError::Http(cause),
        ClientError::Authorization => QbClientError::Authorization,
        ClientError::Parsing(cause) => QbClientError::Json(cause),
    };
    assert(backend.to_domain() == err);
}

/// To the daemon and back, a torrent keeps its name, category, tags and
/// hash; of its trackers the first alone survives, or one tracker of empty
/// text where it had none; its state comes back unknown.
pub proof fn torrent_round_trip(torrent: TorrentInfoView)
    ensures
        torrent.to_backend().to_domain() == (TorrentInfoView {
            trackers: seq![torrent.primary_tracker()],
            state: TorrentState::Unknown,
            ..torrent
        }),
{
}

/// A torrent with exactly one tracker has the same single tracker after the
/// way to the daemon and back.
pub proof fn single_tracker_round_trip(torrent: TorrentInfoView)
    requires
        torrent.trackers.len() == 1,
    ensures
        torrent.to_backend().to_domain().trackers == torrent.trackers,
{
    assert(torrent.to_backend().to_domain().trackers =~= torrent.trackers);
}

/// A torrent without trackers reaches the daemon with a tracker of empty
/// text, and comes back with that one empty tracker.
pub proof fn no_tracker_round_trip(torrent: TorrentInfoView)
    requires
        torrent.trackers.len() == 0,
    ensures
        torrent.to_backend().tracker == Seq::<char>::empty(),
        torrent.to_backend().to_domain().trackers == seq![Seq::<char>::empty()],
{
}

/// From the daemon to the domain and back, a torrent keeps everything but
/// its state.
pub proof fn backend_torrent_round_trip(torrent: QbTorrentInfoView)
    ensures
        torrent.to_domain().to_backend() == (QbTorrentInfoView {
            state: QbTorrentState::Unknown,
            ..torrent
        }),
{
}

/// An upload loses nothing on the way to the daemon, nor on the way back.
pub proof fn upload_round_trip(upload: TorrentUploadView, backend: QbTorrentUploadView)
    ensures
        upload.to_backend().to_domain() == upload,
        backend.to_domain().to_backend() == backend,
{
}

} // verus!
