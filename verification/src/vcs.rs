//! Version-controlled settings: the four configuration domains, their files,
//! and the commit log that every change to them goes through.
use crate::text::{
    chars_of, decimal_digits, digit, join_path, joined_path, push_digits, same_text, text_of,
};
use vstd::prelude::*;

verus! {

/// A configuration domain: one file, versioned on its own.
#[derive(Clone, Copy, PartialEq, Eq, Structural, Debug, Hash)]
pub enum SettingsApp {
    Printnanny,
    Octoprint,
    Moonraker,
    Klipper,
}

/// How a settings file is written.
#[derive(Clone, Copy, PartialEq, Eq, Structural, Debug)]
pub enum SettingsFormat {
    Json,
    Toml,
    Yaml,
    Ini,
}

impl SettingsApp {
    /// The name of the domain in payloads.
    pub open spec fn spec_name(self) -> Seq<char> {
        match self {
            SettingsApp::Printnanny => "printnanny"@,
            SettingsApp::Octoprint => "octoprint"@,
            SettingsApp::Moonraker => "moonraker"@,
            SettingsApp::Klipper => "klipper"@,
        }
    }

    /// The domain that a name stands for.
    pub open spec fn spec_from_name(name: Seq<char>) -> Option<SettingsApp> {
        if name == "printnanny"@ {
            Some(SettingsApp::Printnanny)
        } else if name == "octoprint"@ {
            Some(SettingsApp::Octoprint)
        } else if name == "moonraker"@ {
            Some(SettingsApp::Moonraker)
        } else if name == "klipper"@ {
            Some(SettingsApp::Klipper)
        } else {
            None
        }
    }

    /// Where the domain's file lies below the settings directory.
    pub open spec fn spec_file(self) -> Seq<char> {
        match self {
            SettingsApp::Printnanny => "printnanny/printnanny.toml"@,
            SettingsApp::Octoprint => "octoprint/octoprint.yaml"@,
            SettingsApp::Moonraker => "moonraker/moonraker.conf"@,
            SettingsApp::Klipper => "klipper/printer.cfg"@,
        }
    }

    /// The format of the domain's file.
    pub open spec fn spec_format(self) -> SettingsFormat {
        match self {
            SettingsApp::Printnanny => SettingsFormat::Toml,
            SettingsApp::Octoprint => SettingsFormat::Yaml,
            SettingsApp::Moonraker => SettingsFormat::Ini,
            SettingsApp::Klipper => SettingsFormat::Ini,
        }
    }

    /// The name in payloads.
    pub fn name(self) -> (name: &'static str)
        ensures
            name@ == self.spec_name(),
    {
        match self {
            SettingsApp::Printnanny => "printnanny",
            SettingsApp::Octoprint => "octoprint",
            SettingsApp::Moonraker => "moonraker",
            SettingsApp::Klipper => "klipper",
        }
    }

    /// The domain that a name stands for; none for any other text.
    pub fn from_name(name: &str) -> (app: Option<SettingsApp>)
        ensures
            app == Self::spec_from_name(name@),
    {
        if same_text(name, "printnanny") {
            Some(SettingsApp::Printnanny)
        } else if same_text(name, "octoprint") {
            Some(SettingsApp::Octoprint)
        } else if same_text(name, "moonraker") {
            Some(SettingsApp::Moonraker)
        } else if same_text(name, "klipper") {
            Some(SettingsApp::Klipper)
        } else {
            None
        }
    }

    /// Where the domain's file lies below the settings directory.
    pub fn get_settings_file(self) -> (file: &'static str)
        ensures
            file@ == self.spec_file(),
    {
        match self {
            SettingsApp::Printnanny => "printnanny/printnanny.toml",
            SettingsApp::Octoprint => "octoprint/octoprint.yaml",
            SettingsApp::Moonraker => "moonraker/moonraker.conf",
            SettingsApp::Klipper => "klipper/printer.cfg",
        }
    }

    /// The format of the domain's file.
    pub fn get_settings_format(self) -> (format: SettingsFormat)
        ensures
            format == self.spec_format(),
    {
        match self {
            SettingsApp::Printnanny => SettingsFormat::Toml,
            SettingsApp::Octoprint => SettingsFormat::Yaml,
            SettingsApp::Moonraker => SettingsFormat::Ini,
            SettingsApp::Klipper => SettingsFormat::Ini,
        }
    }
}

impl SettingsFormat {
    /// The name of the format in payloads.
    pub open spec fn spec_name(self) -> Seq<char> {
        match self {
            SettingsFormat::Json => "json"@,
            SettingsFormat::Toml => "toml"@,
            SettingsFormat::Yaml => "yaml"@,
            SettingsFormat::Ini => "ini"@,
        }
    }

    /// The format that a name stands for.
    pub open spec fn spec_from_name(name: Seq<char>) -> Option<SettingsFormat> {
        if name == "json"@ {
            Some(SettingsFormat::Json)
        } else if name == "toml"@ {
            Some(SettingsFormat::Toml)
        } else if name == "yaml"@ {
            Some(SettingsFormat::Yaml)
        } else if name == "ini"@ {
            Some(SettingsFormat::Ini)
        } else {
            None
        }
    }

    /// The name in payloads.
    pub fn name(self) -> (name: &'static str)
        ensures
            name@ == self.spec_name(),
    {
        match self {
            SettingsFormat::Json => "json",
            SettingsFormat::Toml => "toml",
            SettingsFormat::Yaml => "yaml",
            SettingsFormat::Ini => "ini",
        }
    }

    /// The format that a name stands for; none for any other text.
    pub fn from_name(name: &str) -> (format: Option<SettingsFormat>)
        ensures
            format == Self::spec_from_name(name@),
    {
        if same_text(name, "json") {
            Some(SettingsFormat::Json)
        } else if same_text(name, "toml") {
            Some(SettingsFormat::Toml)
        } else if same_text(name, "yaml") {
            Some(SettingsFormat::Yaml)
        } else if same_text(name, "ini") {
            Some(SettingsFormat::Ini)
        } else {
            None
        }
    }
}

/// The whole text of one domain's file.
#[derive(Debug, PartialEq, Eq)]
pub struct SettingsFile {
    pub app: SettingsApp,
    pub content: String,
    pub file_name: String,
    pub file_format: SettingsFormat,
}

pub struct SettingsFileView {
    pub app: SettingsApp,
    pub content: Seq<char>,
    pub file_name: Seq<char>,
    pub file_format: SettingsFormat,
}

impl View for SettingsFile {
    type V = SettingsFileView;

    open spec fn view(&self) -> SettingsFileView {
        SettingsFileView {
            app: self.app,
            content: self.content@,
            file_name: self.file_name@,
            file_format: self.file_format,
        }
    }
}

impl Clone for SettingsFile {
    fn clone(&self) -> (r: Self)
        ensures
            r == *self,
    {
        SettingsFile {
            app: self.app,
            content: self.content.clone(),
            file_name: self.file_name.clone(),
            file_format: self.file_format,
        }
    }
}

/// The views of files in order.
pub open spec fn files_view(files: Seq<SettingsFile>) -> Seq<SettingsFileView> {
    files.map_values(|f: SettingsFile| f@)
}

/// One entry of the commit log. Entries are never changed or removed.
#[derive(Debug, PartialEq, Eq)]
pub struct GitCommit {
    pub oid: String,
    pub header: String,
    pub message: String,
    pub ts: i64,
}

pub struct GitCommitView {
    pub oid: Seq<char>,
    pub header: Seq<char>,
    pub message: Seq<char>,
    pub ts: int,
}

impl View for GitCommit {
    type V = GitCommitView;

    open spec fn view(&self) -> GitCommitView {
        GitCommitView {
            oid: self.oid@,
            header: self.header@,
            message: self.message@,
            ts: self.ts as int,
        }
    }
}

impl Clone for GitCommit {
    fn clone(&self) -> (r: Self)
        ensures
            r == *self,
    {
        GitCommit {
            oid: self.oid.clone(),
            header: self.header.clone(),
            message: self.message.clone(),
            ts: self.ts,
        }
    }
}

/// The views of commits in order.
pub open spec fn commits_view(commits: Seq<GitCommit>) -> Seq<GitCommitView> {
    commits.map_values(|c: GitCommit| c@)
}

/// What the log could not do.
#[derive(Clone, Copy, PartialEq, Eq, Structural, Debug)]
pub enum GitFault {
    /// The text is no commit id: one to forty hexadecimal digits.
    InvalidCommitId,
    /// No commit has this id.
    UnknownCommit,
    /// The log holds its first commit already.
    AlreadyInitialized,
    /// The repository refused the operation.
    Refused,
}

/// Why an operation on versioned settings failed.
#[derive(Clone, Copy, PartialEq, Eq, Structural, Debug)]
pub enum VcsError {
    /// A file could not be read or written.
    Io,
    GitOperation(GitFault),
    /// The log holds no commit yet.
    Uninitialized,
    /// The commit cannot be undone: the file has changed since.
    RevertConflict,
}

/// The tracked files at one moment: for each domain the text of its file,
/// where the file exists.
#[derive(Debug, PartialEq, Eq)]
pub struct Snapshot {
    pub printnanny: Option<String>,
    pub octoprint: Option<String>,
    pub moonraker: Option<String>,
    pub klipper: Option<String>,
}

pub struct SnapshotView {
    pub printnanny: Option<Seq<char>>,
    pub octoprint: Option<Seq<char>>,
    pub moonraker: Option<Seq<char>>,
    pub klipper: Option<Seq<char>>,
}

/// The view of a text that may be absent.
pub open spec fn content_view(content: Option<String>) -> Option<Seq<char>> {
    match content {
        Some(c) => Some(c@),
        None => None,
    }
}

impl View for Snapshot {
    type V = SnapshotView;

    open spec fn view(&self) -> SnapshotView {
        SnapshotView {
            printnanny: content_view(self.printnanny),
            octoprint: content_view(self.octoprint),
            moonraker: content_view(self.moonraker),
            klipper: content_view(self.klipper),
        }
    }
}

impl SnapshotView {
    /// No file at all.
    pub open spec fn empty() -> SnapshotView {
        SnapshotView { printnanny: None, octoprint: None, moonraker: None, klipper: None }
    }

    /// The text of the file of `app`, where the file exists.
    pub open spec fn get(self, app: SettingsApp) -> Option<Seq<char>> {
        match app {
            SettingsApp::Printnanny => self.printnanny,
            SettingsApp::Octoprint => self.octoprint,
            SettingsApp::Moonraker => self.moonraker,
            SettingsApp::Klipper => self.klipper,
        }
    }

    /// The files with the file of `app` replaced, or removed.
    pub open spec fn set(self, app: SettingsApp, content: Option<Seq<char>>) -> SnapshotView {
        match app {
            SettingsApp::Printnanny => SnapshotView { printnanny: content, ..self },
            SettingsApp::Octoprint => SnapshotView { octoprint: content, ..self },
            SettingsApp::Moonraker => SnapshotView { moonraker: content, ..self },
            SettingsApp::Klipper => SnapshotView { klipper: content, ..self },
        }
    }
}

fn copy_content(content: &Option<String>) -> (r: Option<String>)
    ensures
        r == *content,
{
    match content {
        Some(c) => Some(c.clone()),
        None => None,
    }
}

impl Clone for Snapshot {
    fn clone(&self) -> (r: Self)
        ensures
            r == *self,
    {
        Snapshot {
            printnanny: copy_content(&self.printnanny),
            octoprint: copy_content(&self.octoprint),
            moonraker: copy_content(&self.moonraker),
            klipper: copy_content(&self.klipper),
        }
    }
}

impl Snapshot {
    /// No file at all.
    pub fn new() -> (r: Self)
        ensures
            r@ == SnapshotView::empty(),
    {
        Snapshot { printnanny: None, octoprint: None, moonraker: None, klipper: None }
    }

    /// The text of the file of `app`, where the file exists.
    pub fn get(&self, app: SettingsApp) -> (r: &Option<String>)
        ensures
            content_view(*r) == self@.get(app),
    {
        match app {
            SettingsApp::Printnanny => &self.printnanny,
            SettingsApp::Octoprint => &self.octoprint,
            SettingsApp::Moonraker => &self.moonraker,
            SettingsApp::Klipper => &self.klipper,
        }
    }

    /// Replaces the file of `app`, or removes it.
    pub fn set(&mut self, app: SettingsApp, content: Option<String>)
        ensures
            final(self)@ == old(self)@.set(app, content_view(content)),
    {
        match app {
            SettingsApp::Printnanny => {
                self.printnanny = content;
            },
            SettingsApp::Octoprint => {
                self.octoprint = content;
            },
            SettingsApp::Moonraker => {
                self.moonraker = content;
            },
            SettingsApp::Klipper => {
                self.klipper = content;
            },
        }
    }
}

/// One entry of the log with what it recorded: the tracked files as the
/// commit left them.
#[derive(Debug, PartialEq, Eq)]
pub struct Commit {
    pub info: GitCommit,
    pub parent_count: usize,
    pub files: Snapshot,
}

pub struct CommitView {
    pub info: GitCommitView,
    pub parent_count: nat,
    pub files: SnapshotView,
}

impl View for Commit {
    type V = CommitView;

    open spec fn view(&self) -> CommitView {
        CommitView {
            info: self.info@,
            parent_count: self.parent_count as nat,
            files: self.files@,
        }
    }
}

/// The views of log entries in order.
pub open spec fn log_view(commits: Seq<Commit>) -> Seq<CommitView> {
    commits.map_values(|c: Commit| c@)
}

/// A repository of settings: the log, oldest commit first, and the working
/// copy of the files.
pub struct RepositoryView {
    pub commits: Seq<CommitView>,
    pub worktree: SnapshotView,
    pub author: Seq<char>,
}

/// The name of a domain's file without its directory.
pub open spec fn file_name_of(app: SettingsApp) -> Seq<char> {
    match app {
        SettingsApp::Printnanny => "printnanny.toml"@,
        SettingsApp::Octoprint => "octoprint.yaml"@,
        SettingsApp::Moonraker => "moonraker.conf"@,
        SettingsApp::Klipper => "printer.cfg"@,
    }
}

/// The message of a commit that was given none: the file and a revision
/// that counts one more than the parents of the head commit.
pub open spec fn generated_message(app: SettingsApp, head_parent_count: nat) -> Seq<char> {
    file_name_of(app) + " - revision #"@ + decimal_digits(head_parent_count + 1)
}

/// The message that a commit gets.
pub open spec fn message_of(
    app: SettingsApp,
    supplied: Option<Seq<char>>,
    head_parent_count: nat,
) -> Seq<char> {
    match supplied {
        Some(message) => message,
        None => generated_message(app, head_parent_count),
    }
}

/// The id of the commit at place `index` of the log.
pub open spec fn oid_at(index: int) -> Seq<char> {
    decimal_digits((index + 1) as nat)
}

impl RepositoryView {
    /// A log that grew one commit at a time: every commit bears the id of
    /// its place, the first has no parent and every other has one.
    pub open spec fn log_well_formed(self) -> bool {
        forall|i: int|
            0 <= i < self.commits.len() ==> (#[trigger] self.commits[i]).info.oid == oid_at(i)
                && self.commits[i].parent_count == (if i == 0 {
                0nat
            } else {
                1nat
            })
    }

    /// The files as the head commit left them; none before the first commit.
    pub open spec fn head_files(self) -> SnapshotView {
        if self.commits.len() == 0 {
            SnapshotView::empty()
        } else {
            self.commits.last().files
        }
    }

    /// A well-formed log, and a working copy that holds what the head commit
    /// recorded.
    pub open spec fn well_formed(self) -> bool {
        &&& self.log_well_formed()
        &&& self.worktree == self.head_files()
    }

    /// The files as the parent of the commit at `index` left them.
    pub open spec fn parent_files(self, index: int) -> SnapshotView {
        if 0 < index < self.commits.len() {
            self.commits[index - 1].files
        } else {
            SnapshotView::empty()
        }
    }

    /// Whether the commit at `index` changed the file of `app`.
    pub open spec fn touches(self, index: int, app: SettingsApp) -> bool {
        self.commits[index].files.get(app) != self.parent_files(index).get(app)
    }

    /// The repository with one more commit, which records the working copy.
    pub open spec fn committed(self, message: Seq<char>, ts: int) -> RepositoryView {
        RepositoryView {
            commits: self.commits.push(
                CommitView {
                    info: GitCommitView {
                        oid: oid_at(self.commits.len() as int),
                        header: self.author,
                        message,
                        ts,
                    },
                    parent_count: if self.commits.len() == 0 {
                        0nat
                    } else {
                        1nat
                    },
                    files: self.worktree,
                },
            ),
            ..self
        }
    }

    /// What applying `content` to the file of `app` gives.
    pub open spec fn applied(
        self,
        app: SettingsApp,
        content: Seq<char>,
        supplied: Option<Seq<char>>,
        ts: int,
    ) -> Result<RepositoryView, VcsError> {
        if self.commits.len() == 0 {
            Err(VcsError::Uninitialized)
        } else {
            Ok(
                (RepositoryView { worktree: self.worktree.set(app, Some(content)), ..self }).committed(
                    message_of(app, supplied, self.commits.last().parent_count),
                    ts,
                ),
            )
        }
    }

    /// What loading the file of `app` gives.
    pub open spec fn loaded(self, app: SettingsApp) -> Result<SettingsFileView, VcsError> {
        match self.worktree.get(app) {
            Some(content) => Ok(
                SettingsFileView {
                    app,
                    content,
                    file_name: app.spec_file(),
                    file_format: app.spec_format(),
                },
            ),
            None => Err(VcsError::Io),
        }
    }

    /// The commits among the first `n` that changed the file of `app`, in
    /// the order in which they were made.
    pub open spec fn touching_among(self, app: SettingsApp, n: int) -> Seq<GitCommitView>
        decreases n,
    {
        if n <= 0 || n > self.commits.len() {
            Seq::empty()
        } else if self.touches(n - 1, app) {
            self.touching_among(app, n - 1).push(self.commits[n - 1].info)
        } else {
            self.touching_among(app, n - 1)
        }
    }

    /// The first `n` commits, in the order in which they were made.
    pub open spec fn made_among(self, n: int) -> Seq<GitCommitView>
        decreases n,
    {
        if n <= 0 || n > self.commits.len() {
            Seq::empty()
        } else {
            self.made_among(n - 1).push(self.commits[n - 1].info)
        }
    }

    /// The commits that changed the file of `app`, newest first by the time
    /// of the commit.
    pub open spec fn history(self, app: SettingsApp) -> Seq<GitCommitView> {
        let touching = self.touching_among(app, self.commits.len() as int);
        newest_first(touching, touching.len() as int)
    }

    /// All commits, newest first by the time of the commit.
    pub open spec fn log(self) -> Seq<GitCommitView> {
        let made = self.made_among(self.commits.len() as int);
        newest_first(made, made.len() as int)
    }
}

/// Where a commit goes among commits that stand newest first: in front of
/// the first that is not newer than it.
pub open spec fn time_place(s: Seq<GitCommitView>, x: GitCommitView, from: int) -> int
    decreases s.len() - from,
{
    if from < 0 || from >= s.len() {
        s.len() as int
    } else if s[from].ts <= x.ts {
        from
    } else {
        time_place(s, x, from + 1)
    }
}

/// The first `n` of commits that are given in the order in which they were
/// made, newest first by the time of the commit; of two commits of one time
/// the one that was made later comes first.
pub open spec fn newest_first(s: Seq<GitCommitView>, n: int) -> Seq<GitCommitView>
    decreases n,
{
    if n <= 0 || n > s.len() {
        Seq::empty()
    } else {
        let before = newest_first(s, n - 1);
        before.insert(time_place(before, s[n - 1], 0), s[n - 1])
    }
}

/// Whether no commit stands before a newer one.
pub open spec fn descending(s: Seq<GitCommitView>) -> bool {
    forall|i: int, j: int| 0 <= i <= j < s.len() ==> (#[trigger] s[i]).ts >= (#[trigger] s[j]).ts
}

/// A repository of settings in memory.
#[derive(Debug, PartialEq, Eq)]
pub struct SettingsRepository {
    pub commits: Vec<Commit>,
    pub worktree: Snapshot,
    /// Who commits: written into the header of every commit.
    pub author: String,
}

impl View for SettingsRepository {
    type V = RepositoryView;

    open spec fn view(&self) -> RepositoryView {
        RepositoryView {
            commits: log_view(self.commits@),
            worktree: self.worktree@,
            author: self.author@,
        }
    }
}

/// What a change to a domain came to: the file as it stands now, the id of
/// the head commit, and the domain's history.
#[derive(Debug, PartialEq, Eq)]
pub struct Applied {
    pub file: SettingsFile,
    pub git_head_commit: String,
    pub git_history: Vec<GitCommit>,
}

/// The author of commits as the header of a commit names them.
pub open spec fn author_text(name: Seq<char>, email: Seq<char>) -> Seq<char> {
    "author "@ + name + " <"@ + email + ">"@
}

impl SettingsRepository {
    /// The log grew one commit at a time, and the working copy holds what
    /// the head commit recorded.
    pub open spec fn well_formed(&self) -> bool {
        self@.well_formed()
    }

    /// Computes `well_formed`.
    pub fn check(&self) -> (r: bool)
        ensures
            r == self.well_formed(),
    {
        let mut i: usize = 0;
        while i < self.commits.len()
            invariant
                i <= self.commits.len(),
                forall|k: int|
                    0 <= k < i ==> (#[trigger] self@.commits[k]).info.oid == oid_at(k)
                        && self@.commits[k].parent_count == (if k == 0 {
                        0nat
                    } else {
                        1nat
                    }),
            decreases self.commits.len() - i,
        {
            assert(self@.commits[i as int] == self.commits@[i as int]@);
            let mut oid = String::new();
            push_digits(&mut oid, i as u128 + 1);
            assert(oid@ =~= oid_at(i as int));
            let parents: usize = if i == 0 {
                0
            } else {
                1
            };
            if !same_text(self.commits[i].info.oid.as_str(), oid.as_str())
                || self.commits[i].parent_count != parents {
                assert(!self@.log_well_formed());
                return false;
            }
            i = i + 1;
        }
        let empty = Snapshot::new();
        let head = if self.commits.len() == 0 {
            &empty
        } else {
            let last = self.commits.len() - 1;
            assert(self@.commits.last() == self.commits@[last as int]@);
            &self.commits[last].files
        };
        assert(head@ == self@.head_files());
        same_content(&self.worktree.printnanny, &head.printnanny) && same_content(
            &self.worktree.octoprint,
            &head.octoprint,
        ) && same_content(&self.worktree.moonraker, &head.moonraker) && same_content(
            &self.worktree.klipper,
            &head.klipper,
        )
    }

    /// A repository without any commit: nothing but `init` works on it.
    pub fn new(name: &str, email: &str) -> (repo: Self)
        ensures
            repo@ == (RepositoryView {
                commits: Seq::empty(),
                worktree: SnapshotView::empty(),
                author: author_text(name@, email@),
            }),
            repo.well_formed(),
    {
        let mut author = "author ".to_owned();
        author.append(name);
        author.append(" <");
        author.append(email);
        author.append(">");
        let repo = SettingsRepository { commits: Vec::new(), worktree: Snapshot::new(), author };
        assert(repo@.commits =~= Seq::empty());
        repo
    }

    fn commit(&mut self, message: String, ts: i64) -> (oid: String)
        requires
            old(self)@.log_well_formed(),
        ensures
            final(self)@ == old(self)@.committed(message@, ts as int),
            final(self).well_formed(),
            oid@ == final(self)@.commits.last().info.oid,
    {
        let ghost before = self@;
        let index = self.commits.len();
        let mut oid = String::new();
        push_digits(&mut oid, index as u128 + 1);
        assert(oid@ =~= oid_at(index as int));
        let parent_count: usize = if index == 0 {
            0
        } else {
            1
        };
        let entry = Commit {
            info: GitCommit { oid: oid.clone(), header: self.author.clone(), message, ts },
            parent_count,
            files: self.worktree.clone(),
        };
        self.commits.push(entry);
        assert(self@.commits =~= before.committed(message@, ts as int).commits);
        oid
    }

    /// Makes the first commit, which records no file.
    pub fn init(&mut self, ts: i64) -> (r: Result<(), VcsError>)
        requires
            old(self).well_formed(),
        ensures
            final(self).well_formed(),
            match r {
                Ok(()) => old(self)@.commits.len() == 0 && final(self)@ == old(self)@.committed(
                    "Initial commit"@,
                    ts as int,
                ),
                Err(e) => old(self)@.commits.len() > 0 && final(self)@ == old(self)@ && e
                    == VcsError::GitOperation(GitFault::AlreadyInitialized),
            },
    {
        if self.commits.len() > 0 {
            return Err(VcsError::GitOperation(GitFault::AlreadyInitialized));
        }
        let _ = self.commit("Initial commit".to_owned(), ts);
        Ok(())
    }

    /// The head commit: the last of the log.
    pub fn get_git_head_commit(&self) -> (r: Result<GitCommit, VcsError>)
        ensures
            match r {
                Ok(commit) => self@.commits.len() > 0 && commit@ == self@.commits.last().info,
                Err(e) => self@.commits.len() == 0 && e == VcsError::Uninitialized,
            },
    {
        if self.commits.len() == 0 {
            assert(self@.commits.len() == 0);
            return Err(VcsError::Uninitialized);
        }
        let last = self.commits.len() - 1;
        assert(self@.commits.last() == self.commits@[last as int]@);
        Ok(self.commits[last].info.clone())
    }

    /// How many parents the head commit has.
    pub fn git_head_commit_parent_count(&self) -> (r: Result<usize, VcsError>)
        ensures
            match r {
                Ok(count) => self@.commits.len() > 0 && count == self@.commits.last().parent_count,
                Err(e) => self@.commits.len() == 0 && e == VcsError::Uninitialized,
            },
    {
        if self.commits.len() == 0 {
            assert(self@.commits.len() == 0);
            return Err(VcsError::Uninitialized);
        }
        let last = self.commits.len() - 1;
        assert(self@.commits.last() == self.commits@[last as int]@);
        Ok(self.commits[last].parent_count)
    }

    /// The file of `app` as the working copy has it.
    pub fn to_payload(&self, app: SettingsApp) -> (r: Result<SettingsFile, VcsError>)
        ensures
            match r {
                Ok(file) => self@.loaded(app) == Ok::<SettingsFileView, VcsError>(file@),
                Err(e) => self@.loaded(app) == Err::<SettingsFileView, VcsError>(e),
            },
    {
        match self.worktree.get(app) {
            Some(content) => Ok(
                SettingsFile {
                    app,
                    content: content.clone(),
                    file_name: app.get_settings_file().to_owned(),
                    file_format: app.get_settings_format(),
                },
            ),
            None => Err(VcsError::Io),
        }
    }

    /// The text of the file of `app`.
    pub fn read_settings(&self, app: SettingsApp) -> (r: Result<String, VcsError>)
        ensures
            match r {
                Ok(content) => self@.worktree.get(app) == Some(content@),
                Err(e) => self@.worktree.get(app) is None && e == VcsError::Io,
            },
    {
        match self.worktree.get(app) {
            Some(content) => Ok(content.clone()),
            None => Err(VcsError::Io),
        }
    }

    /// Whether the commit at `index` changed the file of `app`.
    fn touched(&self, index: usize, app: SettingsApp) -> (r: bool)
        requires
            index < self.commits.len(),
        ensures
            r == self@.touches(index as int, app),
    {
        assert(self@.commits[index as int] == self.commits@[index as int]@);
        let after = self.commits[index].files.get(app);
        if index == 0 {
            after.is_some()
        } else {
            assert(self@.commits[index - 1] == self.commits@[index - 1]@);
            let before = self.commits[index - 1].files.get(app);
            match (before, after) {
                (Some(b), Some(a)) => !same_text(a.as_str(), b.as_str()),
                (None, None) => false,
                _ => true,
            }
        }
    }

    fn rev_list(&self, app: SettingsApp) -> (r: Vec<GitCommit>)
        ensures
            commits_view(r@) == self@.history(app),
            descending(commits_view(r@)),
    {
        let mut touching: Vec<GitCommit> = Vec::new();
        let mut n: usize = 0;
        assert(commits_view(touching@) =~= Seq::empty());
        while n < self.commits.len()
            invariant
                n <= self.commits.len(),
                commits_view(touching@) == self@.touching_among(app, n as int),
            decreases self.commits.len() - n,
        {
            let ghost before = commits_view(touching@);
            if self.touched(n, app) {
                assert(self@.commits[n as int] == self.commits@[n as int]@);
                touching.push(self.commits[n].info.clone());
                assert(commits_view(touching@) =~= before.push(self@.commits[n as int].info));
            }
            n = n + 1;
        }
        sort_newest_first(&touching)
    }

    /// The commits that changed the file of `app`, newest first by the time
    /// of the commit. A repository without any commit has no history: that
    /// is an error.
    pub fn get_rev_list(&self, app: SettingsApp) -> (r: Result<Vec<GitCommit>, VcsError>)
        ensures
            match r {
                Ok(history) => self@.commits.len() > 0 && commits_view(history@) == self@.history(
                    app,
                ) && descending(commits_view(history@)),
                Err(e) => self@.commits.len() == 0 && e == VcsError::Uninitialized,
            },
    {
        if self.commits.len() == 0 {
            assert(self@.commits.len() == 0);
            return Err(VcsError::Uninitialized);
        }
        assert(self@.commits.len() == self.commits@.len());
        Ok(self.rev_list(app))
    }

    /// All commits, newest first by the time of the commit. A repository
    /// without any commit has no log: that is an error.
    pub fn git_log(&self) -> (r: Result<Vec<GitCommit>, VcsError>)
        ensures
            match r {
                Ok(log) => self@.commits.len() > 0 && commits_view(log@) == self@.log()
                    && descending(commits_view(log@)),
                Err(e) => self@.commits.len() == 0 && e == VcsError::Uninitialized,
            },
    {
        if self.commits.len() == 0 {
            assert(self@.commits.len() == 0);
            return Err(VcsError::Uninitialized);
        }
        assert(self@.commits.len() == self.commits@.len());
        let mut made: Vec<GitCommit> = Vec::new();
        let mut n: usize = 0;
        assert(commits_view(made@) =~= Seq::empty());
        while n < self.commits.len()
            invariant
                n <= self.commits.len(),
                commits_view(made@) == self@.made_among(n as int),
            decreases self.commits.len() - n,
        {
            let ghost before = commits_view(made@);
            assert(self@.commits[n as int] == self.commits@[n as int]@);
            made.push(self.commits[n].info.clone());
            assert(commits_view(made@) =~= before.push(self@.commits[n as int].info));
            n = n + 1;
        }
        Ok(sort_newest_first(&made))
    }

    /// The message of a commit on the file of `app` that was given none.
    pub fn get_git_commit_message(&self, app: SettingsApp) -> (r: Result<String, VcsError>)
        ensures
            match r {
                Ok(message) => self@.commits.len() > 0 && message@ == generated_message(
                    app,
                    self@.commits.last().parent_count,
                ),
                Err(e) => self@.commits.len() == 0 && e == VcsError::Uninitialized,
            },
    {
        let count = self.git_head_commit_parent_count()?;
        Ok(commit_message(app, None, count))
    }

    /// Writes `content` to the file of `app` and commits the working copy,
    /// under `commit_msg` or else under a generated message. Nothing
    /// changes where it fails.
    pub fn save_and_commit(
        &mut self,
        app: SettingsApp,
        content: &str,
        commit_msg: Option<String>,
        ts: i64,
    ) -> (r: Result<Applied, VcsError>)
        requires
            old(self).well_formed(),
        ensures
            final(self).well_formed(),
            match r {
                Ok(applied) => {
                    &&& old(self)@.applied(app, content@, content_view(commit_msg), ts as int)
                        == Ok::<RepositoryView, VcsError>(final(self)@)
                    &&& final(self)@.loaded(app) == Ok::<SettingsFileView, VcsError>(applied.file@)
                    &&& applied.file@.content == content@
                    &&& applied.git_head_commit@ == final(self)@.commits.last().info.oid
                    &&& commits_view(applied.git_history@) == final(self)@.history(app)
                },
                Err(e) => {
                    &&& old(self)@.applied(app, content@, content_view(commit_msg), ts as int)
                        == Err::<RepositoryView, VcsError>(e)
                    &&& final(self)@ == old(self)@
                },
            },
    {
        let count = self.git_head_commit_parent_count()?;
        let message = commit_message(app, commit_msg, count);
        self.worktree.set(app, Some(content.to_owned()));
        let git_head_commit = self.commit(message, ts);
        let file = SettingsFile {
            app,
            content: content.to_owned(),
            file_name: app.get_settings_file().to_owned(),
            file_format: app.get_settings_format(),
        };
        let git_history = self.rev_list(app);
        Ok(Applied { file, git_head_commit, git_history })
    }
}

/// Computes `message_of`.
pub fn commit_message(app: SettingsApp, supplied: Option<String>, head_parent_count: usize) -> (message:
    String)
    ensures
        message@ == message_of(app, content_view(supplied), head_parent_count as nat),
{
    match supplied {
        Some(message) => message,
        None => {
            let name = match app {
                SettingsApp::Printnanny => "printnanny.toml",
                SettingsApp::Octoprint => "octoprint.yaml",
                SettingsApp::Moonraker => "moonraker.conf",
                SettingsApp::Klipper => "printer.cfg",
            };
            let mut message = name.to_owned();
            message.append(" - revision #");
            push_digits(&mut message, head_parent_count as u128 + 1);
            message
        },
    }
}

/// Puts commits that are given in the order in which they were made
/// newest first by the time of the commit.
pub fn sort_newest_first(made: &Vec<GitCommit>) -> (r: Vec<GitCommit>)
    ensures
        commits_view(r@) == newest_first(commits_view(made@), made@.len() as int),
        descending(commits_view(r@)),
        commits_view(r@).to_multiset() == commits_view(made@).to_multiset(),
{
    let mut r: Vec<GitCommit> = Vec::new();
    let mut n: usize = 0;
    assert(commits_view(r@) =~= Seq::empty());
    while n < made.len()
        invariant
            n <= made.len(),
            commits_view(r@) == newest_first(commits_view(made@), n as int),
        decreases made.len() - n,
    {
        let ghost kept = commits_view(r@);
        let ghost x = made@[n as int]@;
        assert(commits_view(made@)[n as int] == x);
        let mut place: usize = 0;
        while place < r.len() && r[place].ts > made[n].ts
            invariant
                place <= r.len(),
                n < made.len(),
                x == made@[n as int]@,
                kept == commits_view(r@),
                time_place(kept, x, 0) == time_place(kept, x, place as int),
            decreases r.len() - place,
        {
            assert(kept[place as int] == r@[place as int]@);
            place = place + 1;
        }
        proof {
            if place < r.len() {
                assert(kept[place as int] == r@[place as int]@);
            }
        }
        r.insert(place, made[n].clone());
        assert(commits_view(r@) =~= kept.insert(place as int, x));
        n = n + 1;
    }
    proof {
        newest_first_is_sorted(commits_view(made@), made@.len() as int);
        assert(commits_view(made@).subrange(0, made@.len() as int) =~= commits_view(made@));
    }
    r
}

proof fn time_place_splits(s: Seq<GitCommitView>, x: GitCommitView, from: int)
    requires
        0 <= from <= s.len(),
    ensures
        from <= time_place(s, x, from) <= s.len(),
        time_place(s, x, from) < s.len() ==> s[time_place(s, x, from)].ts <= x.ts,
        forall|k: int| from <= k < time_place(s, x, from) ==> (#[trigger] s[k]).ts > x.ts,
    decreases s.len() - from,
{
    if from < s.len() && s[from].ts > x.ts {
        time_place_splits(s, x, from + 1);
    }
}

/// Commits that are put newest first stand by descending time, and they
/// are the commits that were given, each once.
pub proof fn newest_first_is_sorted(s: Seq<GitCommitView>, n: int)
    requires
        0 <= n <= s.len(),
    ensures
        descending(newest_first(s, n)),
        newest_first(s, n).to_multiset() == s.subrange(0, n).to_multiset(),
        newest_first(s, n).len() == n,
    decreases n,
{
    if n > 0 {
        newest_first_is_sorted(s, n - 1);
        let before = newest_first(s, n - 1);
        let x = s[n - 1];
        let place = time_place(before, x, 0);
        time_place_splits(before, x, 0);
        let after = before.insert(place, x);
        assert forall|i: int, j: int| 0 <= i <= j < after.len() implies (#[trigger] after[i]).ts >= (
        #[trigger] after[j]).ts by {
            if i < place && j < place {
                assert(after[i] == before[i] && after[j] == before[j]);
            } else if i < place && j == place {
                assert(after[i] == before[i]);
            } else if i < place {
                assert(after[i] == before[i] && after[j] == before[j - 1]);
            } else if i == place && j > place {
                assert(after[j] == before[j - 1]);
                assert(before[place].ts >= before[j - 1].ts);
            } else if i > place {
                assert(after[i] == before[i - 1] && after[j] == before[j - 1]);
            }
        }
        vstd::seq_lib::to_multiset_insert(before, place, x);
        assert(s.subrange(0, n) =~= s.subrange(0, n - 1).push(x));
        vstd::seq_lib::to_multiset_build(s.subrange(0, n - 1), x);
    } else {
        assert(s.subrange(0, 0) =~= Seq::<GitCommitView>::empty());
    }
}

proof fn newest_first_of_prefix(s: Seq<GitCommitView>, x: GitCommitView, n: int)
    requires
        0 <= n <= s.len(),
    ensures
        newest_first(s.push(x), n) == newest_first(s, n),
    decreases n,
{
    if n > 0 {
        newest_first_of_prefix(s, x, n - 1);
        assert(s.push(x)[n - 1] == s[n - 1]);
    }
}

proof fn newest_first_keeps_bound(s: Seq<GitCommitView>, n: int, bound: int)
    requires
        0 <= n <= s.len(),
        forall|i: int| 0 <= i < s.len() ==> (#[trigger] s[i]).ts <= bound,
    ensures
        forall|i: int| 0 <= i < newest_first(s, n).len() ==> (#[trigger] newest_first(s, n)[i]).ts
            <= bound,
    decreases n,
{
    if n > 0 {
        newest_first_keeps_bound(s, n - 1, bound);
        let before = newest_first(s, n - 1);
        let x = s[n - 1];
        let place = time_place(before, x, 0);
        time_place_splits(before, x, 0);
        let after = before.insert(place, x);
        assert forall|i: int| 0 <= i < after.len() implies (#[trigger] after[i]).ts <= bound by {
            if i < place {
                assert(after[i] == before[i]);
            } else if i > place {
                assert(after[i] == before[i - 1]);
            }
        }
    }
}

/// While time does not run backwards the newest commit is the one made
/// last: a commit that is no older than those before it comes first, and
/// the list as it was follows it unchanged.
pub proof fn latest_commit_comes_first(s: Seq<GitCommitView>, x: GitCommitView)
    requires
        forall|i: int| 0 <= i < s.len() ==> (#[trigger] s[i]).ts <= x.ts,
    ensures
        newest_first(s.push(x), (s.len() + 1) as int) == seq![x] + newest_first(s, s.len() as int),
{
    let n = s.len() as int;
    newest_first_of_prefix(s, x, n);
    newest_first_keeps_bound(s, n, x.ts);
    newest_first_is_sorted(s, n);
    let before = newest_first(s, n);
    assert(time_place(before, x, 0) == 0);
    assert(before.insert(0, x) =~= seq![x] + before);
}


/// Whether a character is a hexadecimal digit.
pub open spec fn is_hex_digit(c: char) -> bool {
    ('0' <= c && c <= '9') || ('a' <= c && c <= 'f') || ('A' <= c && c <= 'F')
}

/// Whether a text names a commit: one to forty hexadecimal digits.
pub open spec fn is_commit_id(text: Seq<char>) -> bool {
    &&& 1 <= text.len() <= 40
    &&& forall|i: int| 0 <= i < text.len() ==> is_hex_digit(#[trigger] text[i])
}

/// Computes `is_commit_id`.
pub fn check_commit_id(text: &str) -> (r: bool)
    ensures
        r == is_commit_id(text@),
{
    let chars = chars_of(text);
    if chars.len() < 1 || chars.len() > 40 {
        return false;
    }
    let mut i: usize = 0;
    while i < chars.len()
        invariant
            i <= chars.len(),
            chars@ == text@,
            forall|k: int| 0 <= k < i ==> is_hex_digit(#[trigger] chars@[k]),
        decreases chars.len() - i,
    {
        let c = chars[i];
        let hex = ('0' <= c && c <= '9') || ('a' <= c && c <= 'f') || ('A' <= c && c <= 'F');
        if !hex {
            return false;
        }
        i = i + 1;
    }
    true
}

/// One file after undoing a commit that took it from `before` to `after`,
/// where it holds `current` now; `None` where the file has changed since in
/// another way.
pub open spec fn undone(
    current: Option<Seq<char>>,
    after: Option<Seq<char>>,
    before: Option<Seq<char>>,
) -> Option<Option<Seq<char>>> {
    if after == before {
        Some(current)
    } else if current == after {
        Some(before)
    } else if current == before {
        Some(current)
    } else {
        None
    }
}

/// The message of the commit that undoes the commit with `message`.
pub open spec fn revert_message(message: Seq<char>) -> Seq<char> {
    "Revert \""@ + message + "\""@
}

impl RepositoryView {
    /// The place of the first commit with this id.
    pub open spec fn find_from(self, oid: Seq<char>, from: int) -> Option<int>
        decreases self.commits.len() - from,
    {
        if from < 0 || from >= self.commits.len() {
            None
        } else if self.commits[from].info.oid == oid {
            Some(from)
        } else {
            self.find_from(oid, from + 1)
        }
    }

    /// The place of the commit with this id.
    pub open spec fn find(self, oid: Seq<char>) -> Option<int> {
        self.find_from(oid, 0)
    }

    /// The working copy after undoing the commit at `index`, file by file;
    /// `None` where one of the files conflicts.
    pub open spec fn undone_files(self, index: int) -> Option<SnapshotView> {
        let after = self.commits[index].files;
        let before = self.parent_files(index);
        match (
            undone(self.worktree.printnanny, after.printnanny, before.printnanny),
            undone(self.worktree.octoprint, after.octoprint, before.octoprint),
            undone(self.worktree.moonraker, after.moonraker, before.moonraker),
            undone(self.worktree.klipper, after.klipper, before.klipper),
        ) {
            (Some(printnanny), Some(octoprint), Some(moonraker), Some(klipper)) => Some(
                SnapshotView { printnanny, octoprint, moonraker, klipper },
            ),
            _ => None,
        }
    }

    /// What reverting the commit `target` gives: a new commit on top of the
    /// head whose files undo what `target` changed. The log before it stays
    /// as it is. A text that names no commit of the log is refused: as
    /// unknown where it could be the id of a commit, else as no id at all.
    pub open spec fn reverted(self, target: Seq<char>, ts: int) -> Result<
        RepositoryView,
        VcsError,
    > {
        if self.commits.len() == 0 {
            Err(VcsError::Uninitialized)
        } else {
            match self.find(target) {
                None => if is_commit_id(target) {
                    Err(VcsError::GitOperation(GitFault::UnknownCommit))
                } else {
                    Err(VcsError::GitOperation(GitFault::InvalidCommitId))
                },
                Some(index) => match self.undone_files(index) {
                    None => Err(VcsError::RevertConflict),
                    Some(files) => Ok(
                        (RepositoryView { worktree: files, ..self }).committed(
                            revert_message(self.commits[index].info.message),
                            ts,
                        ),
                    ),
                },
            }
        }
    }
}

fn same_content(a: &Option<String>, b: &Option<String>) -> (r: bool)
    ensures
        r == (content_view(*a) == content_view(*b)),
{
    match (a, b) {
        (Some(x), Some(y)) => same_text(x.as_str(), y.as_str()),
        (None, None) => true,
        _ => false,
    }
}

fn undo_one(current: &Option<String>, after: &Option<String>, before: &Option<String>) -> (r:
    Option<Option<String>>)
    ensures
        match r {
            Some(content) => undone(
                content_view(*current),
                content_view(*after),
                content_view(*before),
            ) == Some(content_view(content)),
            None => undone(content_view(*current), content_view(*after), content_view(*before))
                is None,
        },
{
    if same_content(after, before) {
        Some(copy_content(current))
    } else if same_content(current, after) {
        Some(copy_content(before))
    } else if same_content(current, before) {
        Some(copy_content(current))
    } else {
        None
    }
}

impl SettingsRepository {
    /// Finds the commit with this id.
    pub fn find_commit(&self, oid: &str) -> (r: Option<usize>)
        ensures
            match r {
                Some(i) => self@.find(oid@) == Some(i as int) && i < self.commits.len(),
                None => self@.find(oid@) is None,
            },
    {
        let mut i: usize = 0;
        while i < self.commits.len()
            invariant
                i <= self.commits.len(),
                self@.find(oid@) == self@.find_from(oid@, i as int),
            decreases self.commits.len() - i,
        {
            assert(self@.commits[i as int] == self.commits@[i as int]@);
            if same_text(self.commits[i].info.oid.as_str(), oid) {
                return Some(i);
            }
            i = i + 1;
        }
        None
    }

    /// Undoes the commit `oid` by a new commit on top of the head; the log
    /// as it was stays in place. Nothing changes where it fails.
    pub fn git_revert(&mut self, oid: &str, ts: i64) -> (r: Result<String, VcsError>)
        requires
            old(self).well_formed(),
        ensures
            final(self).well_formed(),
            match r {
                Ok(head) => old(self)@.reverted(oid@, ts as int) == Ok::<RepositoryView, VcsError>(
                    final(self)@,
                ) && head@ == final(self)@.commits.last().info.oid,
                Err(e) => old(self)@.reverted(oid@, ts as int) == Err::<RepositoryView, VcsError>(e)
                    && final(self)@ == old(self)@,
            },
    {
        if self.commits.len() == 0 {
            assert(self@.commits.len() == 0);
            return Err(VcsError::Uninitialized);
        }
        let index = match self.find_commit(oid) {
            Some(index) => index,
            None => {
                if check_commit_id(oid) {
                    return Err(VcsError::GitOperation(GitFault::UnknownCommit));
                }
                return Err(VcsError::GitOperation(GitFault::InvalidCommitId));
            },
        };
        assert(self@.commits[index as int] == self.commits@[index as int]@);
        let empty = Snapshot::new();
        let files = {
            let after = &self.commits[index].files;
            let before = if index == 0 {
                &empty
            } else {
                assert(self@.commits[index - 1] == self.commits@[index - 1]@);
                &self.commits[index - 1].files
            };
            assert(before@ == self@.parent_files(index as int));
            let printnanny = undo_one(&self.worktree.printnanny, &after.printnanny, &before.printnanny);
            let octoprint = undo_one(&self.worktree.octoprint, &after.octoprint, &before.octoprint);
            let moonraker = undo_one(&self.worktree.moonraker, &after.moonraker, &before.moonraker);
            let klipper = undo_one(&self.worktree.klipper, &after.klipper, &before.klipper);
            match (printnanny, octoprint, moonraker, klipper) {
                (Some(printnanny), Some(octoprint), Some(moonraker), Some(klipper)) => Snapshot {
                    printnanny,
                    octoprint,
                    moonraker,
                    klipper,
                },
                _ => {
                    return Err(VcsError::RevertConflict);
                },
            }
        };
        let mut message = "Revert \"".to_owned();
        message.append(self.commits[index].info.message.as_str());
        message.append("\"");
        self.worktree = files;
        let head = self.commit(message, ts);
        Ok(head)
    }
}

/// Applying a file and loading it again gives back the content that was
/// applied.
pub proof fn apply_then_load(
    repo: RepositoryView,
    app: SettingsApp,
    content: Seq<char>,
    supplied: Option<Seq<char>>,
    ts: int,
)
    requires
        repo.applied(app, content, supplied, ts) is Ok,
    ensures
        repo.applied(app, content, supplied, ts)->Ok_0.loaded(app) matches Ok(file) && file.content
            == content && file.app == app,
{
}

/// Whether no two of the commits bear one id.
pub open spec fn distinct_oids(s: Seq<GitCommitView>) -> bool {
    forall|i: int, j: int| 0 <= i < j < s.len() ==> (#[trigger] s[i]).oid != (#[trigger] s[j]).oid
}

/// Whether `c` is one of the first `n` of the commits.
pub open spec fn among(s: Seq<GitCommitView>, c: GitCommitView, n: int) -> bool {
    exists|k: int| 0 <= k < n && k < s.len() && #[trigger] s[k] == c
}

impl RepositoryView {
    /// Whether `c` is one of the first `n` commits of the log and changed
    /// the file of `app`.
    pub open spec fn touched_by(self, app: SettingsApp, c: GitCommitView, n: int) -> bool {
        exists|k: int|
            0 <= k < n && k < self.commits.len() && self.touches(k, app) && (
            #[trigger] self.commits[k]).info == c
    }
}

proof fn touching_are_the_commits_that_touch(repo: RepositoryView, app: SettingsApp, n: int)
    requires
        repo.log_well_formed(),
        0 <= n <= repo.commits.len(),
    ensures
        forall|c: GitCommitView| #[trigger]
            repo.touching_among(app, n).contains(c) <==> repo.touched_by(app, c, n),
        distinct_oids(repo.touching_among(app, n)),
    decreases n,
{
    let t = repo.touching_among(app, n);
    if n > 0 {
        touching_are_the_commits_that_touch(repo, app, n - 1);
        let prev = repo.touching_among(app, n - 1);
        let x = repo.commits[n - 1].info;
        if repo.touches(n - 1, app) {
            assert(t == prev.push(x));
            assert forall|c: GitCommitView| #[trigger] t.contains(c) implies repo.touched_by(
                app,
                c,
                n,
            ) by {
                let i = choose|i: int| 0 <= i < t.len() && t[i] == c;
                if i < prev.len() {
                    assert(prev[i] == c);
                    assert(prev.contains(c));
                    assert(repo.touched_by(app, c, n - 1));
                    let k = choose|k: int|
                        0 <= k < n - 1 && k < repo.commits.len() && repo.touches(k, app) && (
                        #[trigger] repo.commits[k]).info == c;
                    assert(repo.commits[k].info == c);
                } else {
                    assert(repo.commits[n - 1].info == c);
                }
            }
            assert forall|c: GitCommitView| repo.touched_by(app, c, n) implies #[trigger] t.contains(
                c,
            ) by {
                let k = choose|k: int|
                    0 <= k < n && k < repo.commits.len() && repo.touches(k, app) && (
                    #[trigger] repo.commits[k]).info == c;
                if k < n - 1 {
                    assert(repo.touched_by(app, c, n - 1));
                    assert(prev.contains(c));
                    let i = choose|i: int| 0 <= i < prev.len() && prev[i] == c;
                    assert(t[i] == c);
                } else {
                    assert(t[prev.len() as int] == c);
                }
            }
            assert forall|i: int, j: int| 0 <= i < j < t.len() implies (#[trigger] t[i]).oid != (
            #[trigger] t[j]).oid by {
                if j < prev.len() {
                    assert(t[i] == prev[i] && t[j] == prev[j]);
                } else {
                    assert(t[j] == x);
                    assert(t[i] == prev[i]);
                    assert(prev.contains(prev[i]));
                    assert(repo.touched_by(app, prev[i], n - 1));
                    let k = choose|k: int|
                        0 <= k < n - 1 && k < repo.commits.len() && repo.touches(k, app) && (
                        #[trigger] repo.commits[k]).info == prev[i];
                    assert(repo.commits[k].info.oid == oid_at(k));
                    assert(repo.commits[n - 1].info.oid == oid_at(n - 1));
                    if oid_at(k) == oid_at(n - 1) {
                        decimal_digits_injective((k + 1) as nat, n as nat);
                    }
                }
            }
        } else {
            assert(t == prev);
            assert forall|c: GitCommitView| #[trigger] t.contains(c) implies repo.touched_by(
                app,
                c,
                n,
            ) by {
                assert(repo.touched_by(app, c, n - 1));
                let k = choose|k: int|
                    0 <= k < n - 1 && k < repo.commits.len() && repo.touches(k, app) && (
                    #[trigger] repo.commits[k]).info == c;
                assert(repo.commits[k].info == c);
            }
            assert forall|c: GitCommitView| repo.touched_by(app, c, n) implies #[trigger] t.contains(
                c,
            ) by {
                let k = choose|k: int|
                    0 <= k < n && k < repo.commits.len() && repo.touches(k, app) && (
                    #[trigger] repo.commits[k]).info == c;
                assert(k < n - 1);
                assert(repo.touched_by(app, c, n - 1));
            }
        }
    } else {
        assert forall|c: GitCommitView| !(#[trigger] t.contains(c)) by {}
    }
}

proof fn newest_first_keeps_ids_apart(s: Seq<GitCommitView>, n: int)
    requires
        0 <= n <= s.len(),
        distinct_oids(s),
    ensures
        distinct_oids(newest_first(s, n)),
        forall|i: int|
            0 <= i < newest_first(s, n).len() ==> among(s, #[trigger] newest_first(s, n)[i], n),
    decreases n,
{
    if n > 0 {
        newest_first_keeps_ids_apart(s, n - 1);
        let before = newest_first(s, n - 1);
        let x = s[n - 1];
        let place = time_place(before, x, 0);
        time_place_splits(before, x, 0);
        let after = before.insert(place, x);
        assert forall|i: int| 0 <= i < after.len() implies among(s, #[trigger] after[i], n) by {
            if i == place {
                assert(s[n - 1] == after[i]);
            } else {
                let m = if i < place {
                    i
                } else {
                    i - 1
                };
                assert(after[i] == before[m]);
                assert(among(s, before[m], n - 1));
                let k = choose|k: int| 0 <= k < n - 1 && k < s.len() && #[trigger] s[k] == before[m];
                assert(s[k] == after[i]);
            }
        }
        assert forall|i: int, j: int| 0 <= i < j < after.len() implies (#[trigger] after[i]).oid != (
        #[trigger] after[j]).oid by {
            if i != place && j != place {
                let a = if i < place {
                    i
                } else {
                    i - 1
                };
                let b = if j < place {
                    j
                } else {
                    j - 1
                };
                assert(after[i] == before[a] && after[j] == before[b]);
            } else {
                let other = if i == place {
                    j
                } else {
                    i
                };
                let m = if other < place {
                    other
                } else {
                    other - 1
                };
                assert(after[other] == before[m]);
                assert(after[place] == x);
                assert(among(s, before[m], n - 1));
                let k = choose|k: int| 0 <= k < n - 1 && k < s.len() && #[trigger] s[k] == before[m];
                assert(s[k].oid != s[n - 1].oid);
            }
        }
    }
}

/// The history of a domain is the commits that changed its file: each of
/// them once and no other commit, no two under one id, and none before a
/// newer one.
pub proof fn history_is_the_touching_commits(repo: RepositoryView, app: SettingsApp)
    requires
        repo.log_well_formed(),
    ensures
        descending(repo.history(app)),
        distinct_oids(repo.history(app)),
        forall|c: GitCommitView| #[trigger]
            repo.history(app).contains(c) <==> repo.touched_by(app, c, repo.commits.len() as int),
        repo.history(app).to_multiset() == repo.touching_among(
            app,
            repo.commits.len() as int,
        ).to_multiset(),
{
    let touching = repo.touching_among(app, repo.commits.len() as int);
    let n = touching.len() as int;
    touching_are_the_commits_that_touch(repo, app, repo.commits.len() as int);
    newest_first_is_sorted(touching, n);
    newest_first_keeps_ids_apart(touching, n);
    assert(touching.subrange(0, n) =~= touching);
    assert forall|c: GitCommitView| #[trigger]
        repo.history(app).contains(c) <==> touching.contains(c) by {
        vstd::seq_lib::to_multiset_contains(repo.history(app), c);
        vstd::seq_lib::to_multiset_contains(touching, c);
    }
}

proof fn made_are_the_commits(repo: RepositoryView, n: int)
    requires
        0 <= n <= repo.commits.len(),
    ensures
        repo.made_among(n).len() == n,
        forall|i: int| 0 <= i < n ==> (#[trigger] repo.made_among(n)[i]) == repo.commits[i].info,
    decreases n,
{
    if n > 0 {
        made_are_the_commits(repo, n - 1);
    }
}

/// Whether no commit of the log bears a time after `ts`.
pub open spec fn none_after(commits: Seq<CommitView>, ts: int) -> bool {
    forall|i: int| 0 <= i < commits.len() ==> (#[trigger] commits[i]).info.ts <= ts
}

/// Where a log has grown by one commit, the list of all commits holds the
/// new commit and every commit it held before, each as often as before.
/// While time does not run backwards the new commit comes first and the list
/// as it was follows it.
pub proof fn listing_grows_with_the_log(repo: RepositoryView, next: RepositoryView)
    requires
        next.commits.len() == repo.commits.len() + 1,
        next.commits.subrange(0, repo.commits.len() as int) == repo.commits,
    ensures
        next.log().len() == repo.log().len() + 1,
        next.log().to_multiset() == repo.log().to_multiset().insert(next.commits.last().info),
        descending(next.log()),
        none_after(repo.commits, next.commits.last().info.ts) ==> next.log() == seq![
            next.commits.last().info,
        ] + repo.log(),
{
    let n = repo.commits.len() as int;
    let x = next.commits.last().info;
    let made = repo.made_among(n);
    let grown = next.made_among(n + 1);
    made_are_the_commits(repo, n);
    made_are_the_commits(next, n + 1);
    assert forall|i: int| 0 <= i < n implies next.commits[i] == repo.commits[i] by {
        assert(next.commits.subrange(0, n)[i] == next.commits[i]);
    }
    assert(grown =~= made.push(x));
    newest_first_is_sorted(made, n);
    newest_first_is_sorted(grown, n + 1);
    assert(made.subrange(0, n) =~= made);
    assert(grown.subrange(0, n + 1) =~= grown);
    vstd::seq_lib::to_multiset_build(made, x);
    if none_after(repo.commits, x.ts) {
        assert forall|i: int| 0 <= i < made.len() implies (#[trigger] made[i]).ts <= x.ts by {
            assert(made[i] == repo.commits[i].info);
        }
        latest_commit_comes_first(made, x);
    }
}

/// Neither applying nor reverting rewrites history: the log as it was is
/// the beginning of the log as it is, and exactly one commit is new; the
/// list of all commits is longer by that one.
pub proof fn history_only_grows(
    repo: RepositoryView,
    app: SettingsApp,
    content: Seq<char>,
    supplied: Option<Seq<char>>,
    target: Seq<char>,
    ts: int,
)
    ensures
        repo.applied(app, content, supplied, ts) matches Ok(next) ==> next.commits.len()
            == repo.commits.len() + 1 && next.commits.subrange(0, repo.commits.len() as int)
            == repo.commits,
        repo.reverted(target, ts) matches Ok(next) ==> next.commits.len() == repo.commits.len() + 1
            && next.commits.subrange(0, repo.commits.len() as int) == repo.commits,
        repo.applied(app, content, supplied, ts) matches Ok(next) ==> next.log().len()
            == repo.log().len() + 1 && next.log().to_multiset() == repo.log().to_multiset().insert(
            next.commits.last().info,
        ),
        repo.reverted(target, ts) matches Ok(next) ==> next.log().len() == repo.log().len() + 1
            && next.log().to_multiset() == repo.log().to_multiset().insert(
            next.commits.last().info,
        ),
{
    if repo.applied(app, content, supplied, ts) is Ok {
        let next = repo.applied(app, content, supplied, ts)->Ok_0;
        assert(next.commits.subrange(0, repo.commits.len() as int) =~= repo.commits);
        listing_grows_with_the_log(repo, next);
    }
    if repo.reverted(target, ts) is Ok {
        let next = repo.reverted(target, ts)->Ok_0;
        assert(next.commits.subrange(0, repo.commits.len() as int) =~= repo.commits);
        listing_grows_with_the_log(repo, next);
    }
}

/// After two changes to one file, reverting the head commit succeeds,
/// brings back the content of the first change, and adds a commit to the
/// log instead of removing one: the log as it was is the beginning of the
/// log as it is, and the new head has the old head for its one parent. The
/// list of all commits is longer by the new one, and while time does not run
/// backwards it is the new commit followed by the list as it was.
pub proof fn revert_of_head_restores(
    repo: RepositoryView,
    app: SettingsApp,
    first: Seq<char>,
    second: Seq<char>,
    m1: Option<Seq<char>>,
    m2: Option<Seq<char>>,
    t1: int,
    t2: int,
    t3: int,
)
    requires
        repo.log_well_formed(),
        repo.applied(app, first, m1, t1) is Ok,
    ensures
        ({
            let one = repo.applied(app, first, m1, t1)->Ok_0;
            &&& one.applied(app, second, m2, t2) matches Ok(two)
            &&& two.reverted(two.commits.last().info.oid, t3) matches Ok(three)
            &&& three.loaded(app) matches Ok(file)
            &&& file.content == first
            &&& three.commits.len() == two.commits.len() + 1
            &&& three.commits.subrange(0, two.commits.len() as int) == two.commits
            &&& three.commits.last().parent_count == 1
            &&& three.log_well_formed()
            &&& three.log().len() == two.log().len() + 1
            &&& none_after(two.commits, t3) ==> three.log() == seq![three.commits.last().info]
                + two.log()
        }),
{
    let one = repo.applied(app, first, m1, t1)->Ok_0;
    let two = one.applied(app, second, m2, t2)->Ok_0;
    let head = two.commits.last().info.oid;
    let last = two.commits.len() - 1;
    assert(two.log_well_formed());
    assert(head == oid_at(last));
    oids_differ_below(two, last);
    first_match_is_last(two, head, 0);
    assert(two.find(head) == Some(last));
    assert(two.parent_files(last) == one.commits.last().files);
    let three = two.reverted(head, t3)->Ok_0;
    assert(three.commits.subrange(0, two.commits.len() as int) =~= two.commits);
    listing_grows_with_the_log(two, three);
}

/// The decimal digits of a number are digits throughout, and as many as
/// the number takes.
pub proof fn decimal_digits_are_digits(n: nat)
    ensures
        decimal_digits(n).len() >= 1,
        forall|i: int|
            0 <= i < decimal_digits(n).len() ==> '0' <= (#[trigger] decimal_digits(n)[i]) <= '9',
        n < 10 ==> decimal_digits(n).len() == 1,
        n >= 10 ==> decimal_digits(n).len() == decimal_digits(n / 10).len() + 1,
    decreases n,
{
    if n >= 10 {
        decimal_digits_are_digits(n / 10);
    }
}

proof fn digits_differ(x: int, y: int)
    requires
        0 <= x < 10,
        0 <= y < 10,
        digit(x) == digit(y),
    ensures
        x == y,
{
}

/// Distinct numbers have distinct decimal digits.
pub proof fn decimal_digits_injective(a: nat, b: nat)
    requires
        decimal_digits(a) == decimal_digits(b),
    ensures
        a == b,
    decreases a,
{
    decimal_digits_are_digits(a);
    decimal_digits_are_digits(b);
    if a < 10 && b < 10 {
        assert(decimal_digits(a)[0] == digit(a as int));
        assert(decimal_digits(b)[0] == digit(b as int));
        digits_differ(a as int, b as int);
    } else if a >= 10 && b >= 10 {
        let da = decimal_digits(a / 10);
        let db = decimal_digits(b / 10);
        assert(decimal_digits(a).drop_last() =~= da);
        assert(decimal_digits(b).drop_last() =~= db);
        decimal_digits_injective(a / 10, b / 10);
        assert(decimal_digits(a).last() == digit((a % 10) as int));
        assert(decimal_digits(b).last() == digit((b % 10) as int));
        digits_differ((a % 10) as int, (b % 10) as int);
    } else {
        if a >= 10 {
            decimal_digits_are_digits(a / 10);
        } else {
            decimal_digits_are_digits(b / 10);
        }
        assert(false);
    }
}

proof fn oids_differ_below(repo: RepositoryView, last: int)
    requires
        repo.log_well_formed(),
        0 <= last < repo.commits.len(),
    ensures
        forall|i: int| 0 <= i < last ==> (#[trigger] repo.commits[i]).info.oid != oid_at(last),
{
    assert forall|i: int| 0 <= i < last implies (#[trigger] repo.commits[i]).info.oid != oid_at(
        last,
    ) by {
        if repo.commits[i].info.oid == oid_at(last) {
            decimal_digits_injective((i + 1) as nat, (last + 1) as nat);
        }
    }
}

proof fn first_match_is_last(repo: RepositoryView, oid: Seq<char>, from: int)
    requires
        repo.commits.len() > 0,
        0 <= from < repo.commits.len(),
        repo.commits.last().info.oid == oid,
        forall|i: int| 0 <= i < repo.commits.len() - 1 ==> (#[trigger] repo.commits[i]).info.oid != oid,
    ensures
        repo.find_from(oid, from) == Some(repo.commits.len() - 1),
    decreases repo.commits.len() - from,
{
    if from < repo.commits.len() - 1 {
        first_match_is_last(repo, oid, from + 1);
    }
}

/// The place of the last `/` among the first `n` characters, if there is
/// one.
pub open spec fn last_slash(path: Seq<char>, n: int) -> Option<int>
    decreases n,
{
    if n <= 0 || n > path.len() {
        None
    } else if path[n - 1] == '/' {
        Some(n - 1)
    } else {
        last_slash(path, n - 1)
    }
}

/// The directory that a file lies in: what stands before the last `/` of
/// its path; nothing where the path holds none.
pub open spec fn parent_dir_of(path: Seq<char>) -> Seq<char> {
    match last_slash(path, path.len() as int) {
        Some(i) => path.subrange(0, i),
        None => Seq::empty(),
    }
}

/// Computes `parent_dir_of`.
pub fn parent_dir(path: &str) -> (dir: String)
    ensures
        dir@ == parent_dir_of(path@),
{
    let chars = chars_of(path);
    let mut n: usize = chars.len();
    while n > 0 && chars[n - 1] != '/'
        invariant
            n <= chars.len(),
            chars@ == path@,
            last_slash(path@, path@.len() as int) == last_slash(path@, n as int),
        decreases n,
    {
        n = n - 1;
    }
    if n == 0 {
        String::new()
    } else {
        text_of(&chars, 0, n - 1)
    }
}

/// One step of saving a domain's file to a repository on disk.
#[derive(Debug, PartialEq, Eq)]
pub enum VcsStep {
    /// Run the domain's hook before anything is written.
    PreSave(SettingsApp),
    /// Create the directory and those above it where they do not exist.
    CreateDirAll { path: String },
    /// Write the file anew.
    WriteFile { path: String, content: String },
    /// Stage all changes below the repository's root.
    StageAll,
    /// Commit what is staged on top of the head.
    Commit { message: String },
    /// Run the domain's hook after the commit.
    PostSave(SettingsApp),
}

pub enum VcsStepView {
    PreSave(SettingsApp),
    CreateDirAll { path: Seq<char> },
    WriteFile { path: Seq<char>, content: Seq<char> },
    StageAll,
    Commit { message: Seq<char> },
    PostSave(SettingsApp),
}

impl View for VcsStep {
    type V = VcsStepView;

    open spec fn view(&self) -> VcsStepView {
        match self {
            VcsStep::PreSave(app) => VcsStepView::PreSave(*app),
            VcsStep::CreateDirAll { path } => VcsStepView::CreateDirAll { path: path@ },
            VcsStep::WriteFile { path, content } => VcsStepView::WriteFile {
                path: path@,
                content: content@,
            },
            VcsStep::StageAll => VcsStepView::StageAll,
            VcsStep::Commit { message } => VcsStepView::Commit { message: message@ },
            VcsStep::PostSave(app) => VcsStepView::PostSave(*app),
        }
    }
}

/// The views of steps in order.
pub open spec fn steps_view(steps: Seq<VcsStep>) -> Seq<VcsStepView> {
    steps.map_values(|s: VcsStep| s@)
}

/// The error that a failed step stands for: the disk for the two steps
/// that write, the repository for every other.
pub fn step_error(step: &VcsStep) -> (e: VcsError)
    ensures
        e == match step@ {
            VcsStepView::CreateDirAll { .. } => VcsError::Io,
            VcsStepView::WriteFile { .. } => VcsError::Io,
            _ => VcsError::GitOperation(GitFault::Refused),
        },
{
    match step {
        VcsStep::CreateDirAll { .. } => VcsError::Io,
        VcsStep::WriteFile { .. } => VcsError::Io,
        _ => VcsError::GitOperation(GitFault::Refused),
    }
}

/// What saving the file of `app` below `settings_dir` takes, in this
/// order: the hook before, the file's directory, the file, staging, the
/// commit under `commit_msg` or else under the generated message, the hook
/// after. The first step that fails ends the save.
pub fn save_steps(
    settings_dir: &str,
    app: SettingsApp,
    content: &str,
    commit_msg: Option<String>,
    head_parent_count: usize,
) -> (steps: Vec<VcsStep>)
    ensures
        steps_view(steps@) == seq![
            VcsStepView::PreSave(app),
            VcsStepView::CreateDirAll {
                path: parent_dir_of(joined_path(settings_dir@, app.spec_file())),
            },
            VcsStepView::WriteFile {
                path: joined_path(settings_dir@, app.spec_file()),
                content: content@,
            },
            VcsStepView::StageAll,
            VcsStepView::Commit {
                message: message_of(app, content_view(commit_msg), head_parent_count as nat),
            },
            VcsStepView::PostSave(app),
        ],
{
    let path = join_path(settings_dir, app.get_settings_file());
    let dir = parent_dir(path.as_str());
    let message = commit_message(app, commit_msg, head_parent_count);
    let mut steps: Vec<VcsStep> = Vec::new();
    steps.push(VcsStep::PreSave(app));
    steps.push(VcsStep::CreateDirAll { path: dir });
    steps.push(VcsStep::WriteFile { path, content: content.to_owned() });
    steps.push(VcsStep::StageAll);
    steps.push(VcsStep::Commit { message });
    steps.push(VcsStep::PostSave(app));
    assert(steps_view(steps@) =~= seq![
        steps@[0]@,
        steps@[1]@,
        steps@[2]@,
        steps@[3]@,
        steps@[4]@,
        steps@[5]@,
    ]);
    steps
}

/// What the caller does next for a save in progress.
#[derive(Clone, Copy, PartialEq, Eq, Structural, Debug)]
pub enum SaveAction {
    /// Take the step at this place of the steps.
    Step(usize),
    /// Every step is taken.
    Finished,
    /// A step failed: no step after it is taken, and what the steps before
    /// it did stays.
    Aborted(VcsError),
}

/// Progress of one save over `total` steps: the first `done` are taken.
#[derive(Clone, Copy, PartialEq, Eq, Structural, Debug)]
pub struct SaveRun {
    pub total: usize,
    pub done: usize,
    pub failure: Option<VcsError>,
}

impl SaveRun {
    /// No more steps are taken than there are, and a step that failed is
    /// one of them.
    pub open spec fn well_formed(&self) -> bool {
        &&& self.done <= self.total
        &&& self.failure is Some ==> self.done < self.total
    }

    pub open spec fn spec_next_action(&self) -> SaveAction {
        match self.failure {
            Some(error) => SaveAction::Aborted(error),
            None => if self.done < self.total {
                SaveAction::Step(self.done)
            } else {
                SaveAction::Finished
            },
        }
    }

    /// Computes `well_formed`.
    pub fn check(&self) -> (r: bool)
        ensures
            r == self.well_formed(),
    {
        self.done <= self.total && (self.failure.is_none() || self.done < self.total)
    }

    /// A save of which no step is taken yet.
    pub fn begin(total: usize) -> (run: SaveRun)
        ensures
            run == (SaveRun { total, done: 0, failure: None }),
            run.well_formed(),
    {
        SaveRun { total, done: 0, failure: None }
    }

    /// The step to take now: the steps are taken in their order, each only
    /// once all before it are taken, and none after one that failed.
    pub fn next_action(&self) -> (action: SaveAction)
        requires
            self.well_formed(),
        ensures
            action == self.spec_next_action(),
            action matches SaveAction::Step(i) ==> i == self.done && i < self.total
                && self.failure is None,
            action is Finished <==> self.failure is None && self.done == self.total,
            action matches SaveAction::Aborted(e) ==> self.failure == Some(e),
    {
        match self.failure {
            Some(error) => SaveAction::Aborted(error),
            None => {
                if self.done < self.total {
                    SaveAction::Step(self.done)
                } else {
                    SaveAction::Finished
                }
            },
        }
    }

    /// Takes note of how the step that `next_action` named has ended. After
    /// a failure nothing is noted any more.
    pub fn record(&mut self, result: Result<(), VcsError>)
        requires
            old(self).well_formed(),
        ensures
            final(self).well_formed(),
            *final(self) == match old(self).spec_next_action() {
                SaveAction::Step(_) => match result {
                    Ok(()) => SaveRun { done: (old(self).done + 1) as usize, ..*old(self) },
                    Err(e) => SaveRun { failure: Some(e), ..*old(self) },
                },
                _ => *old(self),
            },
    {
        match self.next_action() {
            SaveAction::Step(_) => match result {
                Ok(()) => {
                    self.done = self.done + 1;
                },
                Err(e) => {
                    self.failure = Some(e);
                },
            },
            _ => {},
        }
    }
}

/// How the outside part of a step ended, where nothing is said of a step it
/// ended well.
pub open spec fn outcome_at(outcomes: Seq<Result<(), VcsError>>, i: int) -> Result<(), VcsError> {
    if 0 <= i < outcomes.len() {
        outcomes[i]
    } else {
        Ok(())
    }
}

impl RepositoryView {
    /// What one step of a save on the file of `app` does to the repository:
    /// writing the file changes the working copy, the commit records it,
    /// and no other step changes anything.
    pub open spec fn step_effect(self, app: SettingsApp, step: VcsStepView, ts: int) -> RepositoryView {
        match step {
            VcsStepView::WriteFile { path, content } => RepositoryView {
                worktree: self.worktree.set(app, Some(content)),
                ..self
            },
            VcsStepView::Commit { message } => self.committed(message, ts),
            _ => self,
        }
    }

    /// The repository after the first `n` of the steps, and the failure
    /// that ended the run, if one did: the steps are taken in order until
    /// one fails, and a step that fails changes nothing.
    pub open spec fn ran(
        self,
        app: SettingsApp,
        steps: Seq<VcsStepView>,
        outcomes: Seq<Result<(), VcsError>>,
        ts: int,
        n: int,
    ) -> (RepositoryView, Option<VcsError>)
        decreases n,
    {
        if n <= 0 || n > steps.len() {
            (self, None)
        } else {
            let (before, failure) = self.ran(app, steps, outcomes, ts, n - 1);
            match failure {
                Some(e) => (before, Some(e)),
                None => match outcome_at(outcomes, n - 1) {
                    Err(e) => (before, Some(e)),
                    Ok(()) => (before.step_effect(app, steps[n - 1], ts), None),
                },
            }
        }
    }

    /// The steps of a save on the file of `app`, without the paths, which
    /// the repository in memory does not know.
    pub open spec fn save_steps_of(app: SettingsApp, content: Seq<char>, message: Seq<char>) -> Seq<
        VcsStepView,
    > {
        seq![
            VcsStepView::PreSave(app),
            VcsStepView::CreateDirAll { path: parent_dir_of(app.spec_file()) },
            VcsStepView::WriteFile { path: app.spec_file(), content },
            VcsStepView::StageAll,
            VcsStepView::Commit { message },
            VcsStepView::PostSave(app),
        ]
    }

    /// What saving with hooks gives: nothing where the log holds no commit;
    /// else the run over the steps of the save.
    pub open spec fn saved(
        self,
        app: SettingsApp,
        content: Seq<char>,
        supplied: Option<Seq<char>>,
        outcomes: Seq<Result<(), VcsError>>,
        ts: int,
    ) -> (RepositoryView, Option<VcsError>) {
        if self.commits.len() == 0 {
            (self, Some(VcsError::Uninitialized))
        } else {
            self.ran(
                app,
                Self::save_steps_of(
                    app,
                    content,
                    message_of(app, supplied, self.commits.last().parent_count),
                ),
                outcomes,
                ts,
                6,
            )
        }
    }
}

/// A run that has failed stays as it is: no later step is taken.
pub proof fn a_failed_run_stays(
    repo: RepositoryView,
    app: SettingsApp,
    steps: Seq<VcsStepView>,
    outcomes: Seq<Result<(), VcsError>>,
    ts: int,
    m: int,
    n: int,
)
    requires
        0 <= m <= n <= steps.len(),
        repo.ran(app, steps, outcomes, ts, m).1 is Some,
    ensures
        repo.ran(app, steps, outcomes, ts, n) == repo.ran(app, steps, outcomes, ts, m),
    decreases n - m,
{
    if m < n {
        a_failed_run_stays(repo, app, steps, outcomes, ts, m, n - 1);
    }
}

/// A save whose hook before fails ends with that failure and has changed
/// nothing: not the file, not the log. A save whose every step goes well is
/// the change to the file and its commit, and nothing else. A save whose
/// hook after fails ends with that failure, the change made and committed.
pub proof fn save_runs_in_order(
    repo: RepositoryView,
    app: SettingsApp,
    content: Seq<char>,
    supplied: Option<Seq<char>>,
    outcomes: Seq<Result<(), VcsError>>,
    ts: int,
)
    requires
        repo.commits.len() > 0,
    ensures
        outcome_at(outcomes, 0) matches Err(e) ==> repo.saved(app, content, supplied, outcomes, ts)
            == (repo, Some(e)),
        (forall|i: int| 0 <= i < 6 ==> outcome_at(outcomes, i) is Ok) ==> repo.saved(
            app,
            content,
            supplied,
            outcomes,
            ts,
        ) == (repo.applied(app, content, supplied, ts)->Ok_0, None::<VcsError>),
        (forall|i: int| 0 <= i < 5 ==> outcome_at(outcomes, i) is Ok) ==> (outcome_at(
            outcomes,
            5,
        ) matches Err(e) ==> repo.saved(app, content, supplied, outcomes, ts) == (
            repo.applied(app, content, supplied, ts)->Ok_0,
            Some(e),
        )),
{
    let message = message_of(app, supplied, repo.commits.last().parent_count);
    let steps = RepositoryView::save_steps_of(app, content, message);
    reveal_with_fuel(RepositoryView::ran, 7);
    if outcome_at(outcomes, 0) is Err {
        a_failed_run_stays(repo, app, steps, outcomes, ts, 1, 6);
    }
    if forall|i: int| 0 <= i < 5 ==> outcome_at(outcomes, i) is Ok {
        assert(outcome_at(outcomes, 0) is Ok);
        assert(outcome_at(outcomes, 1) is Ok);
        assert(outcome_at(outcomes, 2) is Ok);
        assert(outcome_at(outcomes, 3) is Ok);
        assert(outcome_at(outcomes, 4) is Ok);
        let after = repo.ran(app, steps, outcomes, ts, 5);
        assert(after == (repo.applied(app, content, supplied, ts)->Ok_0, None::<VcsError>));
    }
}

impl SettingsRepository {
    /// Takes the steps in their order on the repository in memory, each
    /// step's outside part having ended as `outcomes` tells: until one of
    /// them fails, which ends the run and is handed back.
    pub fn run_steps(
        &mut self,
        app: SettingsApp,
        steps: &Vec<VcsStep>,
        outcomes: &Vec<Result<(), VcsError>>,
        ts: i64,
    ) -> (failure: Option<VcsError>)
        requires
            old(self)@.log_well_formed(),
        ensures
            (final(self)@, failure) == old(self)@.ran(
                app,
                steps_view(steps@),
                outcomes@,
                ts as int,
                steps@.len() as int,
            ),
            final(self)@.log_well_formed(),
    {
        let mut run = SaveRun::begin(steps.len());
        loop
            invariant
                run.well_formed(),
                run.total == steps.len(),
                self@.log_well_formed(),
                match run.failure {
                    None => (self@, None::<VcsError>) == old(self)@.ran(
                        app,
                        steps_view(steps@),
                        outcomes@,
                        ts as int,
                        run.done as int,
                    ),
                    Some(e) => (self@, Some(e)) == old(self)@.ran(
                        app,
                        steps_view(steps@),
                        outcomes@,
                        ts as int,
                        run.done + 1,
                    ),
                },
            decreases
                    (run.total - run.done) + (if run.failure is None {
                        1int
                    } else {
                        0int
                    }),
        {
            match run.next_action() {
                SaveAction::Step(i) => {
                    let outcome: Result<(), VcsError> = if i < outcomes.len() {
                        outcomes[i]
                    } else {
                        Ok(())
                    };
                    assert(outcome == outcome_at(outcomes@, i as int));
                    assert(steps_view(steps@)[i as int] == steps@[i as int]@);
                    match outcome {
                        Ok(()) => {
                            match &steps[i] {
                                VcsStep::WriteFile { path, content } => {
                                    self.worktree.set(app, Some(content.clone()));
                                },
                                VcsStep::Commit { message } => {
                                    let _ = self.commit(message.clone(), ts);
                                },
                                _ => {},
                            }
                            run.record(Ok(()));
                        },
                        Err(e) => {
                            run.record(Err(e));
                        },
                    }
                },
                SaveAction::Finished => {
                    return None;
                },
                SaveAction::Aborted(e) => {
                    proof {
                        a_failed_run_stays(
                            old(self)@,
                            app,
                            steps_view(steps@),
                            outcomes@,
                            ts as int,
                            run.done + 1,
                            steps@.len() as int,
                        );
                    }
                    return Some(e);
                },
            }
        }
    }

    /// Saves `content` to the file of `app` with the domain's hooks around
    /// it: the steps of a save are taken in their order, each step's
    /// outside part having ended as `outcomes` tells, the hook before being
    /// the first and the hook after the last. The first failure ends the
    /// save and is handed back; what was done before it stays.
    pub fn save_with_hooks(
        &mut self,
        app: SettingsApp,
        content: &str,
        commit_msg: Option<String>,
        outcomes: &Vec<Result<(), VcsError>>,
        ts: i64,
    ) -> (r: Result<Applied, VcsError>)
        requires
            old(self).well_formed(),
        ensures
            final(self)@.log_well_formed(),
            final(self)@ == old(self)@.saved(
                app,
                content@,
                content_view(commit_msg),
                outcomes@,
                ts as int,
            ).0,
            match r {
                Ok(applied) => {
                    &&& old(self)@.saved(
                        app,
                        content@,
                        content_view(commit_msg),
                        outcomes@,
                        ts as int,
                    ).1 is None
                    &&& final(self).well_formed()
                    &&& final(self)@.loaded(app) == Ok::<SettingsFileView, VcsError>(applied.file@)
                    &&& applied.file@.content == content@
                    &&& applied.git_head_commit@ == final(self)@.commits.last().info.oid
                    &&& commits_view(applied.git_history@) == final(self)@.history(app)
                },
                Err(e) => old(self)@.saved(
                    app,
                    content@,
                    content_view(commit_msg),
                    outcomes@,
                    ts as int,
                ).1 == Some(e),
            },
    {
        let count = match self.git_head_commit_parent_count() {
            Ok(count) => count,
            Err(e) => {
                return Err(e);
            },
        };
        let steps = save_steps("", app, content, commit_msg, count);
        proof {
            let message = message_of(app, content_view(commit_msg), count as nat);
            assert(joined_path(""@, app.spec_file()) == app.spec_file()) by {
                reveal_strlit("");
                reveal_strlit("printnanny/printnanny.toml");
                reveal_strlit("octoprint/octoprint.yaml");
                reveal_strlit("moonraker/moonraker.conf");
                reveal_strlit("klipper/printer.cfg");
            }
            assert(steps_view(steps@) == RepositoryView::save_steps_of(app, content@, message));
        }
        match self.run_steps(app, &steps, outcomes, ts) {
            Some(e) => Err(e),
            None => {
                proof {
                    reveal_with_fuel(RepositoryView::ran, 7);
                }
                let git_head_commit = match self.get_git_head_commit() {
                    Ok(head) => head.oid,
                    Err(e) => {
                        return Err(e);
                    },
                };
                let file = SettingsFile {
                    app,
                    content: content.to_owned(),
                    file_name: app.get_settings_file().to_owned(),
                    file_format: app.get_settings_format(),
                };
                let git_history = self.rev_list(app);
                Ok(Applied { file, git_head_commit, git_history })
            },
        }
    }
}

/// Whether a commit changed a file, the file being given as it was before
/// the commit and as it is after it: by its text, or by what stands for its
/// text.
pub fn file_changed(before: &Option<String>, after: &Option<String>) -> (r: bool)
    ensures
        r == (content_view(*before) != content_view(*after)),
{
    !same_content(before, after)
}

} // verus!
