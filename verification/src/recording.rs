//! Recordings: the rows that describe them, the rule that at most one is
//! open at a time, and what starting and stopping one comes to.
use crate::text::{
    join_path, joined_path, ordered, ordered_is_total, ordered_is_transitive, same_text,
    text_ordered,
};
use crate::pipeline::{
    recording_description, PipelineNode, PipelineNodeView, PrintNannyPipelineFactory,
};
use vstd::prelude::*;

verus! {

/// One recording. It is open while `capture_done` is false; times are
/// milliseconds since the Unix epoch, UTC. `recording_start` is the time at
/// which the row was inserted, and a row is inserted only once the branch
/// that writes the recording runs.
#[derive(Debug, PartialEq, Eq)]
pub struct VideoRecording {
    pub id: String,
    pub capture_done: bool,
    pub cloud_sync_done: bool,
    pub dir: String,
    pub recording_start: Option<i64>,
    pub recording_end: Option<i64>,
    pub gcode_file_name: Option<String>,
}

pub struct VideoRecordingView {
    pub id: Seq<char>,
    pub capture_done: bool,
    pub cloud_sync_done: bool,
    pub dir: Seq<char>,
    pub recording_start: Option<i64>,
    pub recording_end: Option<i64>,
    pub gcode_file_name: Option<Seq<char>>,
}

/// The view of a text that may be absent.
pub open spec fn opt_text(text: Option<String>) -> Option<Seq<char>> {
    match text {
        Some(t) => Some(t@),
        None => None,
    }
}

impl View for VideoRecording {
    type V = VideoRecordingView;

    open spec fn view(&self) -> VideoRecordingView {
        VideoRecordingView {
            id: self.id@,
            capture_done: self.capture_done,
            cloud_sync_done: self.cloud_sync_done,
            dir: self.dir@,
            recording_start: self.recording_start,
            recording_end: self.recording_end,
            gcode_file_name: opt_text(self.gcode_file_name),
        }
    }
}

impl Clone for VideoRecording {
    fn clone(&self) -> (r: Self)
        ensures
            r == *self,
    {
        VideoRecording {
            id: self.id.clone(),
            capture_done: self.capture_done,
            cloud_sync_done: self.cloud_sync_done,
            dir: self.dir.clone(),
            recording_start: self.recording_start,
            recording_end: self.recording_end,
            gcode_file_name: match &self.gcode_file_name {
                Some(name) => Some(name.clone()),
                None => None,
            },
        }
    }
}

/// How far a recording has come.
#[derive(Clone, Copy, PartialEq, Eq, Structural, Debug)]
pub enum RecordingState {
    /// It is being captured.
    Recording,
    /// The capture is done; it is not uploaded.
    Captured,
    /// It is uploaded.
    Synced,
}

impl VideoRecordingView {
    /// How far the recording has come.
    pub open spec fn state(self) -> RecordingState {
        if !self.capture_done {
            RecordingState::Recording
        } else if !self.cloud_sync_done {
            RecordingState::Captured
        } else {
            RecordingState::Synced
        }
    }
}

impl VideoRecording {
    /// How far the recording has come.
    pub fn state(&self) -> (state: RecordingState)
        ensures
            state == self@.state(),
    {
        if !self.capture_done {
            RecordingState::Recording
        } else if !self.cloud_sync_done {
            RecordingState::Captured
        } else {
            RecordingState::Synced
        }
    }
}

/// The views of rows in order.
pub open spec fn rows_view(rows: Seq<VideoRecording>) -> Seq<VideoRecordingView> {
    rows.map_values(|r: VideoRecording| r@)
}

/// The fields of a row to change; an absent field stays as it is.
#[derive(Debug, PartialEq, Eq)]
pub struct UpdateVideoRecording {
    pub capture_done: Option<bool>,
    pub cloud_sync_done: Option<bool>,
    pub dir: Option<String>,
    pub recording_start: Option<i64>,
    pub recording_end: Option<i64>,
    pub gcode_file_name: Option<String>,
}

pub struct UpdateVideoRecordingView {
    pub capture_done: Option<bool>,
    pub cloud_sync_done: Option<bool>,
    pub dir: Option<Seq<char>>,
    pub recording_start: Option<i64>,
    pub recording_end: Option<i64>,
    pub gcode_file_name: Option<Seq<char>>,
}

impl View for UpdateVideoRecording {
    type V = UpdateVideoRecordingView;

    open spec fn view(&self) -> UpdateVideoRecordingView {
        UpdateVideoRecordingView {
            capture_done: self.capture_done,
            cloud_sync_done: self.cloud_sync_done,
            dir: opt_text(self.dir),
            recording_start: self.recording_start,
            recording_end: self.recording_end,
            gcode_file_name: opt_text(self.gcode_file_name),
        }
    }
}

/// A row after a change.
pub open spec fn updated(row: VideoRecordingView, changes: UpdateVideoRecordingView) -> VideoRecordingView {
    VideoRecordingView {
        id: row.id,
        capture_done: match changes.capture_done {
            Some(v) => v,
            None => row.capture_done,
        },
        cloud_sync_done: match changes.cloud_sync_done {
            Some(v) => v,
            None => row.cloud_sync_done,
        },
        dir: match changes.dir {
            Some(v) => v,
            None => row.dir,
        },
        recording_start: match changes.recording_start {
            Some(v) => Some(v),
            None => row.recording_start,
        },
        recording_end: match changes.recording_end {
            Some(v) => Some(v),
            None => row.recording_end,
        },
        gcode_file_name: match changes.gcode_file_name {
            Some(v) => Some(v),
            None => row.gcode_file_name,
        },
    }
}

impl VideoRecording {
    /// Changes the fields that `changes` names.
    pub fn apply(&mut self, changes: &UpdateVideoRecording)
        ensures
            final(self)@ == updated(old(self)@, changes@),
    {
        if let Some(v) = changes.capture_done {
            self.capture_done = v;
        }
        if let Some(v) = changes.cloud_sync_done {
            self.cloud_sync_done = v;
        }
        if let Some(v) = &changes.dir {
            self.dir = v.clone();
        }
        if let Some(v) = changes.recording_start {
            self.recording_start = Some(v);
        }
        if let Some(v) = changes.recording_end {
            self.recording_end = Some(v);
        }
        if let Some(v) = &changes.gcode_file_name {
            self.gcode_file_name = Some(v.clone());
        }
    }
}

/// Whether a start counts as later than another: no start at all is the
/// earliest.
pub open spec fn later_start(a: Option<i64>, b: Option<i64>) -> bool {
    match (a, b) {
        (Some(x), Some(y)) => x > y,
        (Some(_), None) => true,
        _ => false,
    }
}

/// The place of the current recording among the first `n` rows: of the
/// open rows the one that started last, and of several such the first.
pub open spec fn current_among(rows: Seq<VideoRecordingView>, n: int) -> Option<int>
    decreases n,
{
    if n <= 0 || n > rows.len() {
        None
    } else {
        let before = current_among(rows, n - 1);
        if rows[n - 1].capture_done {
            before
        } else {
            match before {
                None => Some(n - 1),
                Some(i) => if later_start(rows[n - 1].recording_start, rows[i].recording_start) {
                    Some(n - 1)
                } else {
                    Some(i)
                },
            }
        }
    }
}

/// The place of the current recording, if there is one.
pub open spec fn current_of(rows: Seq<VideoRecordingView>) -> Option<int> {
    current_among(rows, rows.len() as int)
}

/// The current recording among the first `n` rows is an open row, and
/// there is none exactly when every one of those rows is closed.
pub proof fn current_is_open(rows: Seq<VideoRecordingView>, n: int)
    requires
        0 <= n <= rows.len(),
    ensures
        current_among(rows, n) matches Some(i) ==> 0 <= i < n && !rows[i].capture_done,
        current_among(rows, n) is None <==> forall|k: int| 0 <= k < n ==> (#[trigger] rows[k]).capture_done,
    decreases n,
{
    if n > 0 {
        current_is_open(rows, n - 1);
    }
}

/// Finds the current recording among rows.
pub fn find_current(rows: &Vec<VideoRecording>) -> (r: Option<usize>)
    ensures
        match r {
            Some(i) => current_of(rows_view(rows@)) == Some(i as int) && i < rows.len()
                && !rows[i as int].capture_done,
            None => current_of(rows_view(rows@)) is None,
        },
        r is None <==> forall|k: int| 0 <= k < rows.len() ==> (#[trigger] rows[k]).capture_done,
{
    let mut best: Option<usize> = None;
    let mut n: usize = 0;
    while n < rows.len()
        invariant
            n <= rows.len(),
            match best {
                Some(i) => current_among(rows_view(rows@), n as int) == Some(i as int) && i < n,
                None => current_among(rows_view(rows@), n as int) is None,
            },
        decreases rows.len() - n,
    {
        if !rows[n].capture_done {
            match best {
                None => {
                    best = Some(n);
                },
                Some(i) => {
                    let later = match (rows[n].recording_start, rows[i].recording_start) {
                        (Some(x), Some(y)) => x > y,
                        (Some(_), None) => true,
                        _ => false,
                    };
                    if later {
                        best = Some(n);
                    }
                },
            }
        }
        n = n + 1;
    }
    proof {
        current_is_open(rows_view(rows@), rows.len() as int);
        assert forall|k: int| 0 <= k < rows.len() implies (#[trigger] rows[k]).capture_done
            == rows_view(rows@)[k].capture_done by {}
    }
    best
}

/// Finds the first row with this id.
pub fn find_by_id(rows: &Vec<VideoRecording>, id: &str) -> (r: Option<usize>)
    ensures
        match r {
            Some(i) => i < rows.len() && rows[i as int].id@ == id@ && forall|j: int|
                0 <= j < i ==> (#[trigger] rows[j]).id@ != id@,
            None => forall|j: int| 0 <= j < rows.len() ==> (#[trigger] rows[j]).id@ != id@,
        },
{
    let mut i: usize = 0;
    while i < rows.len()
        invariant
            i <= rows.len(),
            forall|j: int| 0 <= j < i ==> (#[trigger] rows[j]).id@ != id@,
        decreases rows.len() - i,
    {
        if same_text(rows[i].id.as_str(), id) {
            return Some(i);
        }
        i = i + 1;
    }
    None
}

/// Why the state of the recordings does not allow an operation.
#[derive(Clone, Copy, PartialEq, Eq, Structural, Debug)]
pub enum RecordingStateError {
    /// No recording is open.
    NoCurrentRecording,
    /// A recording is open already: it has to be stopped first.
    AlreadyRecording,
    /// A row with this id exists already.
    DuplicateId,
    /// No row has this id.
    UnknownRecording,
}

/// The template of the unit that uploads one recording.
pub const RECORDING_SYNC_TEMPLATE: &'static str = "recording-sync";

/// The name of the unit that uploads the recording `id`.
pub open spec fn sync_unit_text(template: Seq<char>, id: Seq<char>) -> Seq<char> {
    template + "@"@ + id + ".service"@
}

/// Computes `sync_unit_text`.
pub fn sync_unit_name(template: &str, id: &str) -> (unit: String)
    ensures
        unit@ == sync_unit_text(template@, id@),
{
    let mut unit = template.to_owned();
    unit.append("@");
    unit.append(id);
    unit.append(".service");
    unit
}

/// The name of the branch that writes a recording.
pub const RECORDING_PIPELINE: &'static str = "recording";

/// The stage whose output a recording is written from.
pub const RECORDING_UPSTREAM: &'static str = "h264";

/// A recording that may be started: its id, the directory of its own, and
/// the branch to create and set playing before the row is inserted.
#[derive(Debug, PartialEq, Eq)]
pub struct RecordingDraft {
    pub id: String,
    pub dir: String,
    pub branch: PipelineNode,
}

/// The branch that writes a recording into `dir`.
pub open spec fn recording_branch(dir: Seq<char>) -> PipelineNodeView {
    PipelineNodeView {
        name: RECORDING_PIPELINE@,
        upstream: Some(RECORDING_UPSTREAM@),
        description: recording_description(RECORDING_PIPELINE@, RECORDING_UPSTREAM@, dir),
    }
}

/// The row of a recording that starts at `now`.
pub open spec fn new_row(id: Seq<char>, dir: Seq<char>, now: i64) -> VideoRecordingView {
    VideoRecordingView {
        id,
        capture_done: false,
        cloud_sync_done: false,
        dir,
        recording_start: Some(now),
        recording_end: None,
        gcode_file_name: None,
    }
}

/// Decides whether a recording may start: not while another one is open.
/// The new recording gets the directory `id` below `video_path`, and the
/// branch that writes into it.
pub fn plan_start(current: Option<&VideoRecording>, id: String, video_path: &str) -> (r: Result<
    RecordingDraft,
    RecordingStateError,
>)
    ensures
        current is Some ==> r == Err::<RecordingDraft, RecordingStateError>(
            RecordingStateError::AlreadyRecording,
        ),
        current is None ==> r is Ok && r->Ok_0.id@ == id@ && r->Ok_0.dir@ == joined_path(
            video_path@,
            id@,
        ) && r->Ok_0.branch@ == recording_branch(joined_path(video_path@, id@)),
{
    match current {
        Some(_) => Err(RecordingStateError::AlreadyRecording),
        None => {
            let dir = join_path(video_path, id.as_str());
            let branch = PrintNannyPipelineFactory::make_recording_pipeline(
                RECORDING_PIPELINE,
                RECORDING_UPSTREAM,
                dir.as_str(),
            );
            Ok(RecordingDraft { id, dir, branch })
        },
    }
}

impl RecordingDraft {
    /// The row to insert once the recording branch runs: open, not synced,
    /// started at `now`.
    pub fn into_row(self, now: i64) -> (row: VideoRecording)
        ensures
            row@ == new_row(self.id@, self.dir@, now),
    {
        VideoRecording {
            id: self.id,
            capture_done: false,
            cloud_sync_done: false,
            dir: self.dir,
            recording_start: Some(now),
            recording_end: None,
            gcode_file_name: None,
        }
    }
}

/// What stopping the current recording takes, in this order: signal the
/// end of the stream to the branch `end_of_stream`; start `sync_unit`, if
/// there is one, whose failure changes nothing of what follows; change the
/// row `recording_id` by `update`.
#[derive(Debug, PartialEq, Eq)]
pub struct StopPlan {
    pub recording_id: String,
    pub end_of_stream: &'static str,
    pub sync_unit: Option<String>,
    pub update: UpdateVideoRecording,
}

/// The change that closes a recording at `now`.
pub open spec fn closing_update(now: i64) -> UpdateVideoRecordingView {
    UpdateVideoRecordingView {
        capture_done: Some(true),
        cloud_sync_done: None,
        dir: None,
        recording_start: None,
        recording_end: Some(now),
        gcode_file_name: None,
    }
}

/// Decides what stopping takes. Nothing at all while no recording is open:
/// stopping is safe then. Else the current recording is closed at `now`,
/// and uploaded by the unit of its own where `cloud_sync` is set.
pub fn plan_stop(current: Option<&VideoRecording>, cloud_sync: bool, template: &str, now: i64) -> (r:
    Option<StopPlan>)
    ensures
        current is None <==> r is None,
        r matches Some(plan) ==> {
            &&& plan.recording_id@ == current->0.id@
            &&& plan.end_of_stream@ == RECORDING_PIPELINE@
            &&& plan.update@ == closing_update(now)
            &&& opt_text(plan.sync_unit) == if cloud_sync {
                Some(sync_unit_text(template@, current->0.id@))
            } else {
                None
            }
        },
{
    match current {
        None => None,
        Some(recording) => {
            let sync_unit = if cloud_sync {
                Some(sync_unit_name(template, recording.id.as_str()))
            } else {
                None
            };
            Some(
                StopPlan {
                    recording_id: recording.id.clone(),
                    end_of_stream: RECORDING_PIPELINE,
                    sync_unit,
                    update: UpdateVideoRecording {
                        capture_done: Some(true),
                        cloud_sync_done: None,
                        dir: None,
                        recording_start: None,
                        recording_end: Some(now),
                        gcode_file_name: None,
                    },
                },
            )
        },
    }
}

/// Decides whether a recording may start now, and draws a fresh random id
/// for it: not while another one is open, whatever id is drawn.
pub fn begin_recording(current: Option<&VideoRecording>, video_path: &str) -> (r: Result<
    RecordingDraft,
    RecordingStateError,
>)
    ensures
        current is Some ==> r == Err::<RecordingDraft, RecordingStateError>(
            RecordingStateError::AlreadyRecording,
        ),
        current is None ==> r is Ok && r->Ok_0.dir@ == joined_path(video_path@, r->Ok_0.id@)
            && r->Ok_0.branch@ == recording_branch(r->Ok_0.dir@),
{
    match current {
        Some(_) => Err(RecordingStateError::AlreadyRecording),
        None => plan_start(None, fresh_recording_id(), video_path),
    }
}

impl RecordingDraft {
    /// The row to insert once the recording branch runs, started now.
    pub fn into_row_now(self) -> (row: VideoRecording)
        ensures
            exists|now: i64| #[trigger] new_row(self.id@, self.dir@, now) == row@,
    {
        let now = now();
        let row = self.into_row(now);
        assert(new_row(self.id@, self.dir@, now) == row@);
        row
    }
}

/// Decides what stopping takes, the recording being closed now. Nothing at
/// all while no recording is open.
pub fn end_recording(current: Option<&VideoRecording>, cloud_sync: bool, template: &str) -> (r:
    Option<StopPlan>)
    ensures
        current is None <==> r is None,
        r matches Some(plan) ==> {
            &&& plan.recording_id@ == current->0.id@
            &&& plan.end_of_stream@ == RECORDING_PIPELINE@
            &&& exists|now: i64| plan.update@ == #[trigger] closing_update(now)
            &&& opt_text(plan.sync_unit) == if cloud_sync {
                Some(sync_unit_text(template@, current->0.id@))
            } else {
                None
            }
        },
{
    match current {
        None => None,
        Some(_) => {
            let now = now();
            let plan = plan_stop(current, cloud_sync, template, now);
            proof {
                if plan is Some {
                    assert(plan->0.update@ == closing_update(now));
                }
            }
            plan
        },
    }
}

/// What stopping came to: the recording that was closed, if one was open,
/// and the unit to start for its upload, if any.
#[derive(Debug, PartialEq, Eq)]
pub struct Stopped {
    pub recording: Option<VideoRecording>,
    pub sync_unit: Option<String>,
}

/// The rows of all recordings, in the order in which they were inserted.
#[derive(Debug, PartialEq, Eq)]
pub struct RecordingStore {
    pub rows: Vec<VideoRecording>,
}

impl View for RecordingStore {
    type V = Seq<VideoRecordingView>;

    open spec fn view(&self) -> Seq<VideoRecordingView> {
        rows_view(self.rows@)
    }
}

/// Whether a change would open a closed row while another row is open.
pub open spec fn reopens(
    rows: Seq<VideoRecordingView>,
    id: Seq<char>,
    changes: UpdateVideoRecordingView,
) -> bool {
    &&& changes.capture_done == Some(false)
    &&& recording(rows)
    &&& exists|i: int| 0 <= i < rows.len() && (#[trigger] rows[i]).id == id && rows[i].capture_done
}

/// Whether a row bears this id.
pub open spec fn holds_id(rows: Seq<VideoRecordingView>, id: Seq<char>) -> bool {
    exists|i: int| 0 <= i < rows.len() && (#[trigger] rows[i]).id == id
}

/// Whether the row that bears this id is still being captured.
pub open spec fn still_open(rows: Seq<VideoRecordingView>, id: Seq<char>) -> bool {
    exists|i: int| 0 <= i < rows.len() && (#[trigger] rows[i]).id == id && !rows[i].capture_done
}

/// No two rows share an id.
pub open spec fn distinct_ids(rows: Seq<VideoRecordingView>) -> bool {
    forall|i: int, j: int|
        0 <= i < rows.len() && 0 <= j < rows.len() && i != j ==> (#[trigger] rows[i]).id
            != (#[trigger] rows[j]).id
}

/// At most one row is open.
pub open spec fn at_most_one_open(rows: Seq<VideoRecordingView>) -> bool {
    forall|i: int, j: int|
        0 <= i < rows.len() && 0 <= j < rows.len() && !(#[trigger] rows[i]).capture_done && !(
        #[trigger] rows[j]).capture_done ==> i == j
}

/// A recording is open.
pub open spec fn recording(rows: Seq<VideoRecordingView>) -> bool {
    exists|i: int| 0 <= i < rows.len() && !(#[trigger] rows[i]).capture_done
}

/// `uuid::Uuid::new_v4`, written as text: a random id.
#[verifier::external_body]
fn fresh_recording_id() -> (id: String) {
    uuid::Uuid::new_v4().to_string()
}

/// `chrono::Utc::now`, in milliseconds since the Unix epoch.
#[verifier::external_body]
pub(crate) fn now() -> (now: i64) {
    chrono::Utc::now().timestamp_millis()
}

impl RecordingStore {
    /// No two rows share an id, and at most one row is open.
    pub open spec fn well_formed(&self) -> bool {
        &&& distinct_ids(self@)
        &&& at_most_one_open(self@)
    }

    /// Computes `well_formed`.
    pub fn check(&self) -> (r: bool)
        ensures
            r == self.well_formed(),
    {
        let mut open: Option<usize> = None;
        let mut i: usize = 0;
        while i < self.rows.len()
            invariant
                i <= self.rows.len(),
                forall|a: int, b: int|
                    0 <= a < i && 0 <= b < i && a != b ==> (#[trigger] self@[a]).id != (
                    #[trigger] self@[b]).id,
                forall|k: int|
                    0 <= k < i && !(#[trigger] self@[k]).capture_done ==> open == Some(k as usize),
                open matches Some(k) ==> k < i && !self@[k as int].capture_done,
            decreases self.rows.len() - i,
        {
            assert(self@[i as int] == self.rows@[i as int]@);
            let mut j: usize = 0;
            while j < i
                invariant
                    j <= i < self.rows.len(),
                    forall|b: int| 0 <= b < j ==> (#[trigger] self@[b]).id != self@[i as int].id,
                decreases i - j,
            {
                assert(self@[j as int] == self.rows@[j as int]@);
                assert(self@[i as int] == self.rows@[i as int]@);
                if same_text(self.rows[j].id.as_str(), self.rows[i].id.as_str()) {
                    assert(!distinct_ids(self@));
                    return false;
                }
                j = j + 1;
            }
            if !self.rows[i].capture_done {
                match open {
                    Some(k) => {
                        assert(!self@[k as int].capture_done && !self@[i as int].capture_done);
                        assert(!at_most_one_open(self@));
                        return false;
                    },
                    None => {
                        open = Some(i);
                    },
                }
            }
            i = i + 1;
        }
        true
    }

    /// A store without rows.
    pub fn new() -> (store: Self)
        ensures
            store@ == Seq::<VideoRecordingView>::empty(),
            store.well_formed(),
    {
        let store = RecordingStore { rows: Vec::new() };
        assert(store@ =~= Seq::<VideoRecordingView>::empty());
        store
    }

    /// All rows, by ascending id.
    pub fn get_all(&self) -> (rows: Vec<VideoRecording>)
        ensures
            rows_view(rows@) == sorted_rows(self@, self@.len() as int),
            ascending_ids(rows_view(rows@)),
            rows_view(rows@).to_multiset() == self@.to_multiset(),
    {
        let mut rows: Vec<VideoRecording> = Vec::new();
        let mut i: usize = 0;
        assert(rows_view(rows@) =~= Seq::empty());
        while i < self.rows.len()
            invariant
                i <= self.rows.len(),
                rows_view(rows@) == sorted_rows(self@, i as int),
            decreases self.rows.len() - i,
        {
            let ghost kept = rows_view(rows@);
            let ghost x = self.rows@[i as int]@;
            assert(self@[i as int] == x);
            let mut place: usize = rows.len();
            while place > 0 && !text_ordered(rows[place - 1].id.as_str(), self.rows[i].id.as_str())
                invariant
                    place <= rows.len(),
                    i < self.rows.len(),
                    x == self.rows@[i as int]@,
                    kept == rows_view(rows@),
                    row_place(kept, x, kept.len() as int) == row_place(kept, x, place as int),
                decreases place,
            {
                assert(kept[place - 1] == rows@[place - 1]@);
                place = place - 1;
            }
            proof {
                if place > 0 {
                    assert(kept[place - 1] == rows@[place - 1]@);
                }
            }
            rows.insert(place, self.rows[i].clone());
            assert(rows_view(rows@) =~= kept.insert(place as int, x));
            i = i + 1;
        }
        proof {
            sorted_rows_ascend(self@, self@.len() as int);
            assert(self@.subrange(0, self@.len() as int) =~= self@);
        }
        rows
    }

    /// The row with this id.
    pub fn get_by_id(&self, row_id: &str) -> (r: Option<&VideoRecording>)
        ensures
            match r {
                Some(row) => row@.id == row_id@ && self@.contains(row@),
                None => forall|i: int| 0 <= i < self@.len() ==> (#[trigger] self@[i]).id != row_id@,
            },
    {
        match find_by_id(&self.rows, row_id) {
            Some(i) => {
                assert(self@[i as int] == self.rows[i as int]@);
                Some(&self.rows[i])
            },
            None => {
                assert forall|i: int| 0 <= i < self@.len() implies (#[trigger] self@[i]).id
                    != row_id@ by {
                    assert(self@[i] == self.rows[i]@);
                }
                None
            },
        }
    }

    /// The current recording: the open row, if there is one.
    pub fn get_current(&self) -> (r: Option<&VideoRecording>)
        ensures
            match r {
                Some(row) => current_of(self@) is Some && self@[current_of(self@)->0] == row@
                    && !row.capture_done,
                None => current_of(self@) is None,
            },
            r is None <==> !recording(self@),
    {
        match find_current(&self.rows) {
            Some(i) => {
                assert(self@[i as int] == self.rows[i as int]@);
                Some(&self.rows[i])
            },
            None => {
                assert forall|i: int| 0 <= i < self@.len() implies (#[trigger] self@[i]).capture_done by {
                    assert(self@[i] == self.rows[i]@);
                    assert(self.rows[i].capture_done);
                }
                None
            },
        }
    }

    /// The current recording, for callers that need one.
    pub fn require_current(&self) -> (r: Result<&VideoRecording, RecordingStateError>)
        ensures
            match r {
                Ok(row) => current_of(self@) is Some && self@[current_of(self@)->0] == row@,
                Err(e) => e == RecordingStateError::NoCurrentRecording && !recording(self@),
            },
    {
        match self.get_current() {
            Some(row) => Ok(row),
            None => Err(RecordingStateError::NoCurrentRecording),
        }
    }

    /// Adds a row. Refused where its id is taken, and where it is open
    /// while another row is.
    pub fn insert(&mut self, row: VideoRecording) -> (r: Result<(), RecordingStateError>)
        requires
            old(self).well_formed(),
        ensures
            final(self).well_formed(),
            match r {
                Ok(()) => final(self)@ == old(self)@.push(row@),
                Err(e) => final(self)@ == old(self)@ && (e == RecordingStateError::DuplicateId
                    || e == RecordingStateError::AlreadyRecording),
            },
            r == Err::<(), RecordingStateError>(RecordingStateError::DuplicateId) <==> exists|
                i: int,
            |
                0 <= i < old(self)@.len() && (#[trigger] old(self)@[i]).id == row@.id,
            r == Err::<(), RecordingStateError>(RecordingStateError::AlreadyRecording) ==> !row.capture_done
                && recording(old(self)@),
            !row.capture_done && recording(old(self)@) ==> r is Err,
    {
        match find_by_id(&self.rows, row.id.as_str()) {
            Some(i) => {
                assert(self@[i as int] == self.rows[i as int]@);
                return Err(RecordingStateError::DuplicateId);
            },
            None => {
                assert forall|i: int| 0 <= i < self@.len() implies (#[trigger] self@[i]).id
                    != row@.id by {
                    assert(self@[i] == self.rows[i]@);
                }
            },
        }
        if !row.capture_done {
            if self.get_current().is_some() {
                return Err(RecordingStateError::AlreadyRecording);
            }
        }
        let ghost before = self@;
        self.rows.push(row);
        assert(self@ =~= before.push(row@));
        Ok(())
    }

    /// Changes the row with this id. Refused where there is none, and where
    /// the change would open it while another row is open.
    pub fn update(&mut self, row_id: &str, changes: &UpdateVideoRecording) -> (r: Result<
        (),
        RecordingStateError,
    >)
        requires
            old(self).well_formed(),
        ensures
            final(self).well_formed(),
            final(self)@.len() == old(self)@.len(),
            match r {
                Ok(()) => exists|i: int|
                    0 <= i < old(self)@.len() && (#[trigger] old(self)@[i]).id == row_id@
                        && final(self)@ == old(self)@.update(i, updated(old(self)@[i], changes@)),
                Err(e) => final(self)@ == old(self)@ && (e == RecordingStateError::UnknownRecording
                    || e == RecordingStateError::AlreadyRecording),
            },
            r == Err::<(), RecordingStateError>(RecordingStateError::UnknownRecording) <==> forall|
                i: int,
            |
                0 <= i < old(self)@.len() ==> (#[trigger] old(self)@[i]).id != row_id@,
            r == Err::<(), RecordingStateError>(RecordingStateError::AlreadyRecording) <==> reopens(
                old(self)@,
                row_id@,
                changes@,
            ),
    {
        let found = find_by_id(&self.rows, row_id);
        match found {
            None => {
                assert forall|i: int| 0 <= i < self@.len() implies (#[trigger] self@[i]).id
                    != row_id@ by {
                    assert(self@[i] == self.rows[i]@);
                }
                Err(RecordingStateError::UnknownRecording)
            },
            Some(i) => {
                assert(self@[i as int] == self.rows[i as int]@);
                let opens = match changes.capture_done {
                    Some(done) => !done,
                    None => false,
                };
                if opens && self.rows[i].capture_done {
                    if self.get_current().is_some() {
                        return Err(RecordingStateError::AlreadyRecording);
                    }
                }
                let ghost before = self@;
                let mut row = self.rows[i].clone();
                row.apply(changes);
                self.rows.set(i, row);
                assert(self@ =~= before.update(i as int, updated(before[i as int], changes@)));
                assert(at_most_one_open(self@)) by {
                    assert forall|a: int, b: int|
                        0 <= a < self@.len() && 0 <= b < self@.len() && !(#[trigger] self@[a]).capture_done
                            && !(#[trigger] self@[b]).capture_done implies a == b by {
                        if a != i && b != i {
                            assert(before[a] == self@[a] && before[b] == self@[b]);
                        } else if a != i {
                            assert(before[a] == self@[a]);
                            assert(!before[a].capture_done);
                        } else if b != i {
                            assert(before[b] == self@[b]);
                            assert(!before[b].capture_done);
                        }
                    }
                }
                assert(distinct_ids(self@)) by {
                    assert forall|a: int, b: int|
                        0 <= a < self@.len() && 0 <= b < self@.len() && a != b implies (
                    #[trigger] self@[a]).id != (#[trigger] self@[b]).id by {
                        assert(before[a].id == self@[a].id);
                        assert(before[b].id == self@[b].id);
                    }
                }
                Ok(())
            },
        }
    }

    /// Takes note that a recording is uploaded. Only a recording whose
    /// capture is done can be: for one that is open it fails, as for one
    /// that does not exist; one that is uploaded already stays so.
    pub fn mark_synced(&mut self, row_id: &str) -> (r: Result<(), RecordingStateError>)
        requires
            old(self).well_formed(),
        ensures
            final(self).well_formed(),
            final(self)@.len() == old(self)@.len(),
            match r {
                Ok(()) => exists|i: int|
                    0 <= i < old(self)@.len() && (#[trigger] old(self)@[i]).id == row_id@
                        && old(self)@[i].capture_done && final(self)@ == old(self)@.update(
                        i,
                        VideoRecordingView { cloud_sync_done: true, ..old(self)@[i] },
                    ) && final(self)@[i].state() == RecordingState::Synced,
                Err(e) => final(self)@ == old(self)@ && (e == RecordingStateError::UnknownRecording
                    || e == RecordingStateError::AlreadyRecording),
            },
            r == Err::<(), RecordingStateError>(RecordingStateError::UnknownRecording)
                <==> !holds_id(old(self)@, row_id@),
            r == Err::<(), RecordingStateError>(RecordingStateError::AlreadyRecording)
                <==> still_open(old(self)@, row_id@),
            r is Ok <==> holds_id(old(self)@, row_id@) && !still_open(old(self)@, row_id@),
    {
        let i = match find_by_id(&self.rows, row_id) {
            None => {
                assert forall|i: int| 0 <= i < self@.len() implies (#[trigger] self@[i]).id
                    != row_id@ by {
                    assert(self@[i] == self.rows[i]@);
                }
                return Err(RecordingStateError::UnknownRecording);
            },
            Some(i) => i,
        };
        assert(self@[i as int] == self.rows[i as int]@);
        if !self.rows[i].capture_done {
            return Err(RecordingStateError::AlreadyRecording);
        }
        let ghost before = self@;
        let mut row = self.rows[i].clone();
        row.cloud_sync_done = true;
        self.rows.set(i, row);
        assert(self@ =~= before.update(
            i as int,
            VideoRecordingView { cloud_sync_done: true, ..before[i as int] },
        ));
        assert(at_most_one_open(self@)) by {
            assert forall|a: int, b: int|
                0 <= a < self@.len() && 0 <= b < self@.len() && !(#[trigger] self@[a]).capture_done
                    && !(#[trigger] self@[b]).capture_done implies a == b by {
                assert(before[a].capture_done == self@[a].capture_done);
                assert(before[b].capture_done == self@[b].capture_done);
            }
        }
        assert(distinct_ids(self@)) by {
            assert forall|a: int, b: int|
                0 <= a < self@.len() && 0 <= b < self@.len() && a != b implies (#[trigger] self@[a]).id
                    != (#[trigger] self@[b]).id by {
                assert(before[a].id == self@[a].id);
                assert(before[b].id == self@[b].id);
            }
        }
        Ok(())
    }

    /// Starts the recording `id` at `now`, with the directory `id` below
    /// `video_path`. It fails while another recording is open.
    pub fn start_new(&mut self, id: String, video_path: &str, now: i64) -> (r: Result<
        VideoRecording,
        RecordingStateError,
    >)
        requires
            old(self).well_formed(),
        ensures
            final(self).well_formed(),
            r is Ok <==> !recording(old(self)@) && !holds_id(old(self)@, id@),
            r == Err::<VideoRecording, RecordingStateError>(RecordingStateError::AlreadyRecording)
                <==> recording(old(self)@),
            r == Err::<VideoRecording, RecordingStateError>(RecordingStateError::DuplicateId)
                <==> !recording(old(self)@) && holds_id(old(self)@, id@),
            match r {
                Ok(row) => row@ == new_row(id@, joined_path(video_path@, id@), now) && final(self)@
                    == old(self)@.push(row@),
                Err(_) => final(self)@ == old(self)@,
            },
    {
        let draft = match plan_start(self.get_current(), id, video_path) {
            Ok(draft) => draft,
            Err(e) => {
                return Err(e);
            },
        };
        let row = draft.into_row(now);
        let reply = row.clone();
        match self.insert(row) {
            Ok(()) => Ok(reply),
            Err(e) => Err(e),
        }
    }

    /// Starts a recording now, under a fresh random id. Should the id be
    /// taken, which chance all but rules out, it fails and changes nothing;
    /// in a store without rows no id is taken and the start succeeds.
    pub fn start(&mut self, video_path: &str) -> (r: Result<VideoRecording, RecordingStateError>)
        requires
            old(self).well_formed(),
        ensures
            final(self).well_formed(),
            r == Err::<VideoRecording, RecordingStateError>(RecordingStateError::AlreadyRecording)
                <==> recording(old(self)@),
            old(self)@.len() == 0 ==> r is Ok,
            match r {
                Ok(row) => final(self)@ == old(self)@.push(row@) && !recording(old(self)@)
                    && !holds_id(old(self)@, row.id@) && exists|now: i64| #[trigger]
                    new_row(row.id@, joined_path(video_path@, row.id@), now) == row@,
                Err(e) => final(self)@ == old(self)@ && (e == RecordingStateError::AlreadyRecording
                    || e == RecordingStateError::DuplicateId),
            },
    {
        let id = fresh_recording_id();
        let now = now();
        self.start_new(id, video_path, now)
    }

    /// Stops the current recording at `now`. While none is open nothing
    /// changes and no recording is named: that is no error.
    pub fn stop_at(&mut self, cloud_sync: bool, template: &str, now: i64) -> (r: Stopped)
        requires
            old(self).well_formed(),
        ensures
            final(self).well_formed(),
            !recording(final(self)@),
            match current_of(old(self)@) {
                None => r.recording is None && r.sync_unit is None && final(self)@ == old(self)@,
                Some(i) => {
                    &&& r.recording is Some
                    &&& r.recording->0@ == updated(old(self)@[i], closing_update(now))
                    &&& final(self)@ == old(self)@.update(i, r.recording->0@)
                    &&& opt_text(r.sync_unit) == if cloud_sync {
                        Some(sync_unit_text(template@, old(self)@[i].id))
                    } else {
                        None
                    }
                },
            },
    {
        let found = find_current(&self.rows);
        match found {
            None => {
                assert forall|i: int| 0 <= i < self@.len() implies (#[trigger] self@[i]).capture_done by {
                    assert(self@[i] == self.rows[i]@);
                    assert(self.rows[i].capture_done);
                }
                Stopped { recording: None, sync_unit: None }
            },
            Some(i) => {
                assert(self@[i as int] == self.rows[i as int]@);
                let plan = plan_stop(Some(&self.rows[i]), cloud_sync, template, now);
                let plan = plan.unwrap();
                let ghost before = self@;
                let mut row = self.rows[i].clone();
                row.apply(&plan.update);
                let reply = row.clone();
                self.rows.set(i, row);
                assert(self@ =~= before.update(i as int, reply@));
                assert forall|a: int| 0 <= a < self@.len() implies (#[trigger] self@[a]).capture_done by {
                    if a != i {
                        assert(before[a] == self@[a]);
                        assert(!before[i as int].capture_done);
                    }
                }
                assert(distinct_ids(self@)) by {
                    assert forall|a: int, b: int|
                        0 <= a < self@.len() && 0 <= b < self@.len() && a != b implies (
                    #[trigger] self@[a]).id != (#[trigger] self@[b]).id by {
                        assert(before[a].id == self@[a].id);
                        assert(before[b].id == self@[b].id);
                    }
                }
                Stopped { recording: Some(reply), sync_unit: plan.sync_unit }
            },
        }
    }

    /// Stops the current recording now.
    pub fn stop(&mut self, cloud_sync: bool, template: &str) -> (r: Stopped)
        requires
            old(self).well_formed(),
        ensures
            final(self).well_formed(),
            !recording(final(self)@),
            final(self)@.len() == old(self)@.len(),
            r.recording is None <==> !recording(old(self)@),
            r.recording is None ==> r.sync_unit is None && final(self)@ == old(self)@,
            match current_of(old(self)@) {
                Some(i) => {
                    &&& r.recording matches Some(row)
                    &&& final(self)@ == old(self)@.update(i, row@)
                    &&& exists|now: i64|
                        row@ == updated(old(self)@[i], #[trigger] closing_update(now))
                    &&& opt_text(r.sync_unit) == if cloud_sync {
                        Some(sync_unit_text(template@, old(self)@[i].id))
                    } else {
                        None
                    }
                },
                None => r.recording is None,
            },
    {
        let now = now();
        proof {
            current_is_open(self@, self@.len() as int);
        }
        self.stop_at(cloud_sync, template, now)
    }
}

/// While every row goes through `insert`, `update`, `start` and `stop`, at
/// most one recording is open at any time: each of them keeps a
/// well-formed store well-formed, and of a well-formed store the current
/// recording is the only open row.
pub proof fn current_is_the_only_open(rows: Seq<VideoRecordingView>, k: int)
    requires
        at_most_one_open(rows),
        0 <= k < rows.len(),
        !rows[k].capture_done,
    ensures
        current_of(rows) == Some(k),
{
    current_is_open(rows, rows.len() as int);
}

/// One piece of a recording that is uploaded on its own.
#[derive(Debug, PartialEq, Eq)]
pub struct VideoRecordingPart {
    pub id: String,
    pub part: i32,
    pub size: i64,
    pub deleted: bool,
    pub sync_start: Option<i64>,
    pub sync_end: Option<i64>,
    pub file_name: String,
    pub video_recording_id: String,
}

pub struct VideoRecordingPartView {
    pub id: Seq<char>,
    pub part: int,
    pub size: int,
    pub deleted: bool,
    pub sync_start: Option<i64>,
    pub sync_end: Option<i64>,
    pub file_name: Seq<char>,
    pub video_recording_id: Seq<char>,
}

impl View for VideoRecordingPart {
    type V = VideoRecordingPartView;

    open spec fn view(&self) -> VideoRecordingPartView {
        VideoRecordingPartView {
            id: self.id@,
            part: self.part as int,
            size: self.size as int,
            deleted: self.deleted,
            sync_start: self.sync_start,
            sync_end: self.sync_end,
            file_name: self.file_name@,
            video_recording_id: self.video_recording_id@,
        }
    }
}

impl Clone for VideoRecordingPart {
    fn clone(&self) -> (r: Self)
        ensures
            r == *self,
    {
        VideoRecordingPart {
            id: self.id.clone(),
            part: self.part,
            size: self.size,
            deleted: self.deleted,
            sync_start: self.sync_start,
            sync_end: self.sync_end,
            file_name: self.file_name.clone(),
            video_recording_id: self.video_recording_id.clone(),
        }
    }
}

/// The views of parts in order.
pub open spec fn parts_view(parts: Seq<VideoRecordingPart>) -> Seq<VideoRecordingPartView> {
    parts.map_values(|p: VideoRecordingPart| p@)
}

/// Of the first `n` parts those whose upload has not begun, in order.
pub open spec fn ready_among(parts: Seq<VideoRecordingPartView>, n: int) -> Seq<
    VideoRecordingPartView,
>
    decreases n,
{
    if n <= 0 || n > parts.len() {
        Seq::empty()
    } else if parts[n - 1].sync_start is None {
        ready_among(parts, n - 1).push(parts[n - 1])
    } else {
        ready_among(parts, n - 1)
    }
}

/// Of the first `n` parts those of the recording `id`, in order.
pub open spec fn parts_among(parts: Seq<VideoRecordingPartView>, id: Seq<char>, n: int) -> Seq<
    VideoRecordingPartView,
>
    decreases n,
{
    if n <= 0 || n > parts.len() {
        Seq::empty()
    } else if parts[n - 1].video_recording_id == id {
        parts_among(parts, id, n - 1).push(parts[n - 1])
    } else {
        parts_among(parts, id, n - 1)
    }
}

impl VideoRecordingPart {
    /// The parts whose upload has not begun, in the order given.
    pub fn get_ready_for_cloud_sync(parts: &Vec<VideoRecordingPart>) -> (ready: Vec<
        VideoRecordingPart,
    >)
        ensures
            parts_view(ready@) == ready_among(parts_view(parts@), parts@.len() as int),
    {
        let mut ready: Vec<VideoRecordingPart> = Vec::new();
        let mut i: usize = 0;
        assert(parts_view(ready@) =~= Seq::empty());
        while i < parts.len()
            invariant
                i <= parts.len(),
                parts_view(ready@) == ready_among(parts_view(parts@), i as int),
            decreases parts.len() - i,
        {
            let ghost kept = parts_view(ready@);
            if parts[i].sync_start.is_none() {
                ready.push(parts[i].clone());
                assert(parts_view(ready@) =~= kept.push(parts@[i as int]@));
            }
            i = i + 1;
        }
        ready
    }

    /// The parts of one recording, by ascending index; parts of one index
    /// stay in the order given.
    pub fn get_parts_by_video_recording_id(
        parts: &Vec<VideoRecordingPart>,
        video_recording: &str,
    ) -> (found: Vec<VideoRecordingPart>)
        ensures
            parts_view(found@) == sorted_parts(
                parts_view(parts@),
                video_recording@,
                parts@.len() as int,
            ),
            ascending(parts_view(found@)),
    {
        let mut found: Vec<VideoRecordingPart> = Vec::new();
        let mut i: usize = 0;
        assert(parts_view(found@) =~= Seq::empty());
        while i < parts.len()
            invariant
                i <= parts.len(),
                parts_view(found@) == sorted_parts(parts_view(parts@), video_recording@, i as int),
            decreases parts.len() - i,
        {
            if same_text(parts[i].video_recording_id.as_str(), video_recording) {
                let ghost kept = parts_view(found@);
                let ghost x = parts@[i as int]@;
                let mut place: usize = found.len();
                while place > 0 && found[place - 1].part > parts[i].part
                    invariant
                        place <= found.len(),
                        i < parts.len(),
                        x == parts@[i as int]@,
                        kept == parts_view(found@),
                        insert_place(kept, x, kept.len() as int) == insert_place(
                            kept,
                            x,
                            place as int,
                        ),
                    decreases place,
                {
                    assert(kept[place - 1] == found@[place - 1]@);
                    place = place - 1;
                }
                proof {
                    if place > 0 {
                        assert(kept[place - 1] == found@[place - 1]@);
                    }
                }
                found.insert(place, parts[i].clone());
                assert(parts_view(found@) =~= kept.insert(place as int, x));
            }
            i = i + 1;
        }
        proof {
            sorted_parts_ascend(parts_view(parts@), video_recording@, parts@.len() as int);
        }
        found
    }
}

/// Where a part goes among the first `n` of parts in ascending order:
/// behind the last part whose index is not greater.
pub open spec fn insert_place(s: Seq<VideoRecordingPartView>, x: VideoRecordingPartView, n: int) -> int
    decreases n,
{
    if n <= 0 || n > s.len() {
        0
    } else if s[n - 1].part <= x.part {
        n
    } else {
        insert_place(s, x, n - 1)
    }
}

/// Of the first `n` parts those of the recording `id`, by ascending index.
pub open spec fn sorted_parts(parts: Seq<VideoRecordingPartView>, id: Seq<char>, n: int) -> Seq<
    VideoRecordingPartView,
>
    decreases n,
{
    if n <= 0 || n > parts.len() {
        Seq::empty()
    } else {
        let before = sorted_parts(parts, id, n - 1);
        if parts[n - 1].video_recording_id == id {
            before.insert(insert_place(before, parts[n - 1], before.len() as int), parts[n - 1])
        } else {
            before
        }
    }
}

/// Whether parts stand by ascending index.
pub open spec fn ascending(s: Seq<VideoRecordingPartView>) -> bool {
    forall|i: int, j: int| 0 <= i <= j < s.len() ==> (#[trigger] s[i]).part <= (#[trigger] s[j]).part
}

proof fn insert_place_splits(s: Seq<VideoRecordingPartView>, x: VideoRecordingPartView, n: int)
    requires
        0 <= n <= s.len(),
    ensures
        0 <= insert_place(s, x, n) <= n,
        insert_place(s, x, n) > 0 ==> s[insert_place(s, x, n) - 1].part <= x.part,
        forall|k: int| insert_place(s, x, n) <= k < n ==> (#[trigger] s[k]).part > x.part,
    decreases n,
{
    if n > 0 && s[n - 1].part > x.part {
        insert_place_splits(s, x, n - 1);
    }
}

/// The parts of a recording come out by ascending index, and they are the
/// parts of that recording, each as often as it was given.
pub proof fn sorted_parts_ascend(parts: Seq<VideoRecordingPartView>, id: Seq<char>, n: int)
    requires
        0 <= n <= parts.len(),
    ensures
        ascending(sorted_parts(parts, id, n)),
        sorted_parts(parts, id, n).to_multiset() == parts_among(parts, id, n).to_multiset(),
    decreases n,
{
    if n > 0 {
        sorted_parts_ascend(parts, id, n - 1);
        let before = sorted_parts(parts, id, n - 1);
        let x = parts[n - 1];
        if x.video_recording_id == id {
            let place = insert_place(before, x, before.len() as int);
            insert_place_splits(before, x, before.len() as int);
            let after = before.insert(place, x);
            assert forall|i: int, j: int| 0 <= i <= j < after.len() implies (#[trigger] after[i]).part
                <= (#[trigger] after[j]).part by {
                if i < place && j < place {
                    assert(after[i] == before[i] && after[j] == before[j]);
                } else if i < place && j == place {
                    assert(after[i] == before[i]);
                    assert(before[i].part <= before[place - 1].part);
                } else if i < place {
                    assert(after[i] == before[i] && after[j] == before[j - 1]);
                    assert(before[i].part <= before[place - 1].part);
                } else if i == place && j > place {
                    assert(after[j] == before[j - 1]);
                } else if i > place {
                    assert(after[i] == before[i - 1] && after[j] == before[j - 1]);
                }
            }
            vstd::seq_lib::to_multiset_insert(before, place, x);
            vstd::seq_lib::to_multiset_build(parts_among(parts, id, n - 1), x);
        }
    }
}

/// Where a row goes among the first `n` of rows in ascending order of
/// their ids: behind the last row whose id does not stand after its own.
pub open spec fn row_place(s: Seq<VideoRecordingView>, x: VideoRecordingView, n: int) -> int
    decreases n,
{
    if n <= 0 || n > s.len() {
        0
    } else if ordered(s[n - 1].id, x.id) {
        n
    } else {
        row_place(s, x, n - 1)
    }
}

/// The first `n` rows by ascending id.
pub open spec fn sorted_rows(rows: Seq<VideoRecordingView>, n: int) -> Seq<VideoRecordingView>
    decreases n,
{
    if n <= 0 || n > rows.len() {
        Seq::empty()
    } else {
        let before = sorted_rows(rows, n - 1);
        before.insert(row_place(before, rows[n - 1], before.len() as int), rows[n - 1])
    }
}

/// Whether rows stand by ascending id.
pub open spec fn ascending_ids(s: Seq<VideoRecordingView>) -> bool {
    forall|i: int, j: int|
        0 <= i <= j < s.len() ==> ordered((#[trigger] s[i]).id, (#[trigger] s[j]).id)
}

proof fn row_place_splits(s: Seq<VideoRecordingView>, x: VideoRecordingView, n: int)
    requires
        0 <= n <= s.len(),
    ensures
        0 <= row_place(s, x, n) <= n,
        row_place(s, x, n) > 0 ==> ordered(s[row_place(s, x, n) - 1].id, x.id),
        forall|k: int| row_place(s, x, n) <= k < n ==> !ordered((#[trigger] s[k]).id, x.id),
    decreases n,
{
    if n > 0 && !ordered(s[n - 1].id, x.id) {
        row_place_splits(s, x, n - 1);
    }
}

/// Rows come out by ascending id, and they are the rows that were given,
/// each once.
pub proof fn sorted_rows_ascend(rows: Seq<VideoRecordingView>, n: int)
    requires
        0 <= n <= rows.len(),
    ensures
        ascending_ids(sorted_rows(rows, n)),
        sorted_rows(rows, n).to_multiset() == rows.subrange(0, n).to_multiset(),
        sorted_rows(rows, n).len() == n,
    decreases n,
{
    if n > 0 {
        sorted_rows_ascend(rows, n - 1);
        let before = sorted_rows(rows, n - 1);
        let x = rows[n - 1];
        let place = row_place(before, x, before.len() as int);
        row_place_splits(before, x, before.len() as int);
        let after = before.insert(place, x);
        assert forall|i: int, j: int| 0 <= i <= j < after.len() implies ordered(
            (#[trigger] after[i]).id,
            (#[trigger] after[j]).id,
        ) by {
            if i < place && j < place {
                assert(after[i] == before[i] && after[j] == before[j]);
            } else if i < place && j == place {
                assert(after[i] == before[i]);
                assert(ordered(before[i].id, before[place - 1].id));
                ordered_is_transitive(before[i].id, before[place - 1].id, x.id, 0);
            } else if i < place {
                assert(after[i] == before[i] && after[j] == before[j - 1]);
            } else if i == place && j > place {
                assert(after[j] == before[j - 1]);
                ordered_is_total(before[j - 1].id, x.id, 0);
            } else if i > place {
                assert(after[i] == before[i - 1] && after[j] == before[j - 1]);
            } else {
                ordered_is_total(x.id, x.id, 0);
            }
        }
        vstd::seq_lib::to_multiset_insert(before, place, x);
        assert(rows.subrange(0, n) =~= rows.subrange(0, n - 1).push(x));
        vstd::seq_lib::to_multiset_build(rows.subrange(0, n - 1), x);
    } else {
        assert(rows.subrange(0, 0) =~= Seq::<VideoRecordingView>::empty());
    }
}

/// The instant that an RFC 3339 text names, in milliseconds since the Unix
/// epoch, as `chrono` reads it; none where the text names no instant.
pub uninterp spec fn rfc3339_millis(text: Seq<char>) -> Option<i64>;

/// `chrono::DateTime::parse_from_rfc3339`, and of the time that it reads
/// `timestamp_millis`.
#[verifier::external_body]
fn parse_rfc3339(text: &str) -> (r: Option<i64>)
    ensures
        r == rfc3339_millis(text@),
{
    chrono::DateTime::parse_from_rfc3339(text).ok().map(|t| t.timestamp_millis())
}

/// A recording as the cloud describes it.
#[derive(Debug, PartialEq, Eq)]
pub struct CloudVideoRecording {
    pub id: Option<String>,
    pub capture_done: Option<bool>,
    pub cloud_sync_done: Option<bool>,
    pub recording_start: Option<String>,
    pub recording_end: Option<String>,
}

/// A part of a recording as the cloud describes it.
#[derive(Debug, PartialEq, Eq)]
pub struct CloudVideoRecordingPart {
    pub id: String,
    pub part: i32,
    pub size: i64,
    pub video_recording: String,
    pub sync_start: Option<String>,
    pub sync_end: Option<String>,
}

/// The fields of a part to change; an absent field stays as it is.
#[derive(Debug, PartialEq, Eq)]
pub struct UpdateVideoRecordingPart {
    pub part: Option<i32>,
    pub size: Option<i64>,
    pub deleted: Option<bool>,
    pub sync_start: Option<i64>,
    pub sync_end: Option<i64>,
    pub file_name: Option<String>,
    pub video_recording_id: Option<String>,
}

/// Why a record of the cloud gives no change to a row.
#[derive(Clone, Copy, PartialEq, Eq, Structural, Debug)]
pub enum CloudRecordError {
    /// The record names no row.
    MissingId,
    /// A time of the record is no RFC 3339 time.
    InvalidTime,
}

/// A time of a record that was read: absent, or the instant it names, or no
/// instant at all.
pub open spec fn time_read(text: Option<String>) -> Option<Option<i64>> {
    match text {
        Some(t) => Some(rfc3339_millis(t@)),
        None => None,
    }
}

/// Whether a time that was read is there and names no instant.
pub open spec fn unreadable(time: Option<Option<i64>>) -> bool {
    time == Some(None::<i64>)
}

/// The instant of a time that was read, if it names one.
pub open spec fn instant(time: Option<Option<i64>>) -> Option<i64> {
    match time {
        Some(Some(t)) => Some(t),
        _ => None,
    }
}

fn read_time(text: &Option<String>) -> (r: Option<Option<i64>>)
    ensures
        r == time_read(*text),
{
    match text {
        Some(t) => Some(parse_rfc3339(t.as_str())),
        None => None,
    }
}

fn instant_of(time: Option<Option<i64>>) -> (r: Option<i64>)
    ensures
        r == instant(time),
{
    match time {
        Some(Some(t)) => Some(t),
        _ => None,
    }
}

fn is_unreadable(time: Option<Option<i64>>) -> (r: bool)
    ensures
        r == unreadable(time),
{
    match time {
        Some(None) => true,
        _ => false,
    }
}

impl VideoRecording {
    /// The row to change and the change that brings it up to a record of
    /// the cloud, whose times are given as they were read: the two flags
    /// and the two times are taken over where the record states them; the
    /// directory and the file stay.
    pub fn change_from_cloud(
        obj: &CloudVideoRecording,
        recording_start: Option<Option<i64>>,
        recording_end: Option<Option<i64>>,
    ) -> (r: Result<(String, UpdateVideoRecording), CloudRecordError>)
        ensures
            match r {
                Ok((id, update)) => {
                    &&& obj.id matches Some(row_id)
                    &&& id@ == row_id@
                    &&& !unreadable(recording_start) && !unreadable(recording_end)
                    &&& update@ == (UpdateVideoRecordingView {
                        capture_done: obj.capture_done,
                        cloud_sync_done: obj.cloud_sync_done,
                        dir: None,
                        recording_start: instant(recording_start),
                        recording_end: instant(recording_end),
                        gcode_file_name: None,
                    })
                },
                Err(e) => if obj.id is None {
                    e == CloudRecordError::MissingId
                } else {
                    e == CloudRecordError::InvalidTime && (unreadable(recording_start)
                        || unreadable(recording_end))
                },
            },
    {
        let id = match &obj.id {
            Some(id) => id.clone(),
            None => {
                return Err(CloudRecordError::MissingId);
            },
        };
        if is_unreadable(recording_start) || is_unreadable(recording_end) {
            return Err(CloudRecordError::InvalidTime);
        }
        Ok(
            (
                id,
                UpdateVideoRecording {
                    capture_done: obj.capture_done,
                    cloud_sync_done: obj.cloud_sync_done,
                    dir: None,
                    recording_start: instant_of(recording_start),
                    recording_end: instant_of(recording_end),
                    gcode_file_name: None,
                },
            ),
        )
    }

    /// The row to change and the change that brings it up to a record of
    /// the cloud.
    pub fn update_from_cloud(obj: &CloudVideoRecording) -> (r: Result<
        (String, UpdateVideoRecording),
        CloudRecordError,
    >)
        ensures
            match r {
                Ok((id, update)) => {
                    &&& obj.id matches Some(row_id)
                    &&& id@ == row_id@
                    &&& !unreadable(time_read(obj.recording_start))
                    &&& !unreadable(time_read(obj.recording_end))
                    &&& update@ == (UpdateVideoRecordingView {
                        capture_done: obj.capture_done,
                        cloud_sync_done: obj.cloud_sync_done,
                        dir: None,
                        recording_start: instant(time_read(obj.recording_start)),
                        recording_end: instant(time_read(obj.recording_end)),
                        gcode_file_name: None,
                    })
                },
                Err(e) => if obj.id is None {
                    e == CloudRecordError::MissingId
                } else {
                    e == CloudRecordError::InvalidTime && (unreadable(
                        time_read(obj.recording_start),
                    ) || unreadable(time_read(obj.recording_end)))
                },
            },
    {
        let recording_start = read_time(&obj.recording_start);
        let recording_end = read_time(&obj.recording_end);
        Self::change_from_cloud(obj, recording_start, recording_end)
    }
}

impl VideoRecordingPart {
    /// The change that brings a part up to a record of the cloud, whose
    /// times are given as they were read: index, size and recording are
    /// taken over, the times where the record states them; whether the
    /// part is deleted and the name of its file stay.
    pub fn change_from_cloud(
        obj: &CloudVideoRecordingPart,
        sync_start: Option<Option<i64>>,
        sync_end: Option<Option<i64>>,
    ) -> (r: Result<UpdateVideoRecordingPart, CloudRecordError>)
        ensures
            match r {
                Ok(update) => {
                    &&& !unreadable(sync_start) && !unreadable(sync_end)
                    &&& update.part == Some(obj.part)
                    &&& update.size == Some(obj.size)
                    &&& update.deleted is None
                    &&& update.sync_start == instant(sync_start)
                    &&& update.sync_end == instant(sync_end)
                    &&& update.file_name is None
                    &&& opt_text(update.video_recording_id) == Some(obj.video_recording@)
                },
                Err(e) => e == CloudRecordError::InvalidTime && (unreadable(sync_start)
                    || unreadable(sync_end)),
            },
    {
        if is_unreadable(sync_start) || is_unreadable(sync_end) {
            return Err(CloudRecordError::InvalidTime);
        }
        Ok(
            UpdateVideoRecordingPart {
                part: Some(obj.part),
                size: Some(obj.size),
                deleted: None,
                sync_start: instant_of(sync_start),
                sync_end: instant_of(sync_end),
                file_name: None,
                video_recording_id: Some(obj.video_recording.clone()),
            },
        )
    }

    /// The change that brings a part up to a record of the cloud.
    pub fn update_from_cloud(obj: &CloudVideoRecordingPart) -> (r: Result<
        UpdateVideoRecordingPart,
        CloudRecordError,
    >)
        ensures
            match r {
                Ok(update) => {
                    &&& !unreadable(time_read(obj.sync_start))
                    &&& !unreadable(time_read(obj.sync_end))
                    &&& update.part == Some(obj.part)
                    &&& update.size == Some(obj.size)
                    &&& update.deleted is None
                    &&& update.sync_start == instant(time_read(obj.sync_start))
                    &&& update.sync_end == instant(time_read(obj.sync_end))
                    &&& update.file_name is None
                    &&& opt_text(update.video_recording_id) == Some(obj.video_recording@)
                },
                Err(e) => e == CloudRecordError::InvalidTime && (unreadable(
                    time_read(obj.sync_start),
                ) || unreadable(time_read(obj.sync_end))),
            },
    {
        let sync_start = read_time(&obj.sync_start);
        let sync_end = read_time(&obj.sync_end);
        Self::change_from_cloud(obj, sync_start, sync_end)
    }
}

/// An instant, given in milliseconds since the Unix epoch, as an RFC 3339
/// time in UTC, as `chrono` writes it; none where `chrono` knows no such
/// instant.
pub uninterp spec fn rfc3339_text(millis: i64) -> Option<Seq<char>>;

/// `chrono::DateTime::from_timestamp_millis`, and of the time that it
/// gives `to_rfc3339`.
#[verifier::external_body]
fn format_rfc3339(millis: i64) -> (r: Option<String>)
    ensures
        opt_text(r) == rfc3339_text(millis),
{
    chrono::DateTime::<chrono::Utc>::from_timestamp_millis(millis).map(|t| t.to_rfc3339())
}

/// A time that may be absent, as text.
pub open spec fn time_text_of(time: Option<i64>) -> Option<Seq<char>> {
    match time {
        Some(millis) => rfc3339_text(millis),
        None => None,
    }
}

/// Writes a time that may be absent as an RFC 3339 time.
pub fn time_text(time: Option<i64>) -> (r: Option<String>)
    ensures
        opt_text(r) == time_text_of(time),
{
    match time {
        Some(millis) => format_rfc3339(millis),
        None => None,
    }
}

/// A recording as the device reports it to the cloud.
#[derive(Debug, PartialEq, Eq)]
pub struct VideoRecordingRequest {
    pub id: Option<String>,
    pub capture_done: Option<bool>,
    pub cloud_sync_done: Option<bool>,
    pub combine_done: Option<bool>,
    pub recording_start: Option<String>,
    pub recording_end: Option<String>,
    pub gcode_file_name: Option<String>,
}

/// A part as the device reports it to the cloud.
#[derive(Debug, PartialEq, Eq)]
pub struct VideoRecordingPartRequest {
    pub id: String,
    pub size: i64,
    pub part: i32,
    pub sync_start: Option<String>,
    pub sync_end: Option<String>,
    pub video_recording: String,
}

impl VideoRecording {
    /// What the device reports of the recording: every field that the row
    /// has, the times as text, and that the parts are not combined.
    pub fn to_request(&self) -> (req: VideoRecordingRequest)
        ensures
            opt_text(req.id) == Some(self.id@),
            req.capture_done == Some(self.capture_done),
            req.cloud_sync_done == Some(self.cloud_sync_done),
            req.combine_done == Some(false),
            opt_text(req.recording_start) == time_text_of(self.recording_start),
            opt_text(req.recording_end) == time_text_of(self.recording_end),
            opt_text(req.gcode_file_name) == opt_text(self.gcode_file_name),
    {
        VideoRecordingRequest {
            id: Some(self.id.clone()),
            capture_done: Some(self.capture_done),
            cloud_sync_done: Some(self.cloud_sync_done),
            combine_done: Some(false),
            recording_start: time_text(self.recording_start),
            recording_end: time_text(self.recording_end),
            gcode_file_name: match &self.gcode_file_name {
                Some(name) => Some(name.clone()),
                None => None,
            },
        }
    }
}

impl VideoRecordingPart {
    /// What the device reports of the part before its upload: the times of
    /// the upload are left out.
    pub fn to_request(&self) -> (req: VideoRecordingPartRequest)
        ensures
            req.id@ == self.id@,
            req.size == self.size,
            req.part == self.part,
            req.sync_start is None,
            req.sync_end is None,
            req.video_recording@ == self.video_recording_id@,
    {
        VideoRecordingPartRequest {
            id: self.id.clone(),
            size: self.size,
            part: self.part,
            sync_start: None,
            sync_end: None,
            video_recording: self.video_recording_id.clone(),
        }
    }
}

} // verus!
