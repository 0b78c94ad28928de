use vstd::prelude::*;

use crate::options::Options;
use crate::properties::{join_lines, join_text, layout, render_lines, texts, views, Line};
use crate::timestamp::{calculate_time, local_now_text, spec_commit_text, CommitTime, GitTime};

verus! {

/// What a repository shows at HEAD, read by the caller: the commit's hex
/// identifier and time, how many status entries (ignored paths left out) the
/// working tree and index have, and whether HEAD is a branch, with its short
/// name where the name could be read.
pub struct HeadSnapshot {
    pub sha: String,
    pub time: GitTime,
    pub status_entries: usize,
    pub head_is_branch: bool,
    pub branch_short_name: Option<String>,
}

/// The metadata of one repository, ready to be written as properties.
pub struct Results {
    options: Options,
    sha: String,
    commit_time: Option<CommitTime>,
    dirty: bool,
    branch_name: Option<String>,
    build_time: Option<String>,
}

pub open spec fn opt_string_view(o: Option<String>) -> Option<Seq<char>> {
    match o {
        Some(s) => Some(s@),
        None => None,
    }
}

pub open spec fn commit_text(o: Option<CommitTime>) -> Option<Seq<char>> {
    match o {
        Some(c) => Some(c.text@),
        None => None,
    }
}

/// The branch that HEAD names: none where HEAD is detached.
pub open spec fn spec_branch(snapshot: HeadSnapshot) -> Option<Seq<char>> {
    if snapshot.head_is_branch {
        opt_string_view(snapshot.branch_short_name)
    } else {
        None
    }
}

impl Results {
    pub closed spec fn spec_options(&self) -> Options {
        self.options
    }

    pub closed spec fn spec_sha(&self) -> Seq<char> {
        self.sha@
    }

    pub closed spec fn spec_commit_time(&self) -> Option<CommitTime> {
        self.commit_time
    }

    pub closed spec fn spec_dirty(&self) -> bool {
        self.dirty
    }

    pub closed spec fn spec_branch_name(&self) -> Option<Seq<char>> {
        opt_string_view(self.branch_name)
    }

    pub closed spec fn spec_build_time(&self) -> Option<Seq<char>> {
        opt_string_view(self.build_time)
    }

    /// The lines of the properties file for these results.
    pub open spec fn spec_layout(&self) -> Seq<Line> {
        layout(
            self.spec_sha(),
            commit_text(self.spec_commit_time()),
            self.spec_build_time(),
            self.spec_dirty(),
            self.spec_branch_name(),
            self.spec_options().compat(),
        )
    }

    /// These results are what `snapshot`, `options` and `build` give: the
    /// commit time is the one that `calculate_time` gives; the tree is dirty
    /// exactly when there is a status entry; the branch name is present
    /// exactly when HEAD is a branch whose name could be read.
    pub open spec fn made_from(
        &self,
        snapshot: HeadSnapshot,
        options: Options,
        build: Option<Seq<char>>,
    ) -> bool {
        &&& self.spec_options() == options
        &&& self.spec_sha() == snapshot.sha@
        &&& self.spec_dirty() == (snapshot.status_entries > 0)
        &&& self.spec_branch_name() == spec_branch(snapshot)
        &&& self.spec_build_time() == build
        &&& commit_text(self.spec_commit_time()) == spec_commit_text(snapshot.time)
        &&& self.spec_commit_time() matches Some(c) ==> c.well_formed() && c.epoch_millis
            == snapshot.time.seconds * 1000 && c.offset_seconds == snapshot.time.offset_seconds()
    }

    /// Results from what HEAD shows, with the build time given.
    pub fn from_snapshot(snapshot: HeadSnapshot, options: Options, build_time: Option<String>) -> (r:
        Results)
        ensures
            r.made_from(snapshot, options, opt_string_view(build_time)),
    {
        let commit_time = calculate_time(snapshot.time, options);
        let branch_name = if snapshot.head_is_branch {
            snapshot.branch_short_name
        } else {
            None
        };
        Results {
            options,
            sha: snapshot.sha,
            commit_time,
            dirty: snapshot.status_entries > 0,
            branch_name,
            build_time,
        }
    }

    /// Results from what HEAD shows; in compatibility mode the time of this
    /// call is kept as the build time, otherwise there is none.
    pub fn options_new(snapshot: HeadSnapshot, options: Options) -> (r: Results)
        ensures
            r.made_from(snapshot, options, r.spec_build_time()),
            r.spec_build_time() is Some == options.compat(),
    {
        let build_time = if options.is_compat() {
            Some(local_now_text())
        } else {
            None
        };
        Self::from_snapshot(snapshot, options, build_time)
    }

    /// Results from what HEAD shows, with no option set.
    pub fn new(snapshot: HeadSnapshot) -> (r: Results)
        ensures
            r.spec_options().spec_bits() == 0,
            r.made_from(snapshot, r.spec_options(), None),
    {
        let options = Options::empty();
        assert(0u32 & 1u32 != 1u32) by (bit_vector);
        Self::options_new(snapshot, options)
    }

    pub fn sha(&self) -> (r: &str)
        ensures
            r@ == self.spec_sha(),
    {
        self.sha.as_str()
    }

    pub fn commit_time(&self) -> (r: Option<CommitTime>)
        ensures
            r == self.spec_commit_time(),
    {
        match &self.commit_time {
            Some(c) => Some(CommitTime {
                epoch_millis: c.epoch_millis,
                offset_seconds: c.offset_seconds,
                text: c.text.clone(),
            }),
            None => None,
        }
    }

    pub fn dirty(&self) -> (r: bool)
        ensures
            r == self.spec_dirty(),
    {
        self.dirty
    }

    pub fn branch_name(&self) -> (r: Option<&str>)
        ensures
            r matches Some(n) ==> self.spec_branch_name() == Some(n@),
            r is None ==> self.spec_branch_name() is None,
    {
        match &self.branch_name {
            Some(s) => Some(s.as_str()),
            None => None,
        }
    }

    pub fn build_time(&self) -> (r: Option<&str>)
        ensures
            r matches Some(t) ==> self.spec_build_time() == Some(t@),
            r is None ==> self.spec_build_time() is None,
    {
        match &self.build_time {
            Some(s) => Some(s.as_str()),
            None => None,
        }
    }

    pub fn options(&self) -> (r: Options)
        ensures
            r == self.spec_options(),
    {
        self.options
    }

    /// The lines of the properties file that holds these results.
    pub fn java_properties_lines(&self) -> (r: Vec<String>)
        ensures
            views(r@) == texts(self.spec_layout()),
    {
        let commit = match &self.commit_time {
            Some(c) => Some(c.text.as_str()),
            None => None,
        };
        let build = match &self.build_time {
            Some(s) => Some(s.as_str()),
            None => None,
        };
        let branch = match &self.branch_name {
            Some(s) => Some(s.as_str()),
            None => None,
        };
        render_lines(self.sha.as_str(), commit, build, self.dirty, branch, self.options.is_compat())
    }

    /// The text of the properties file that holds these results.
    pub fn java_properties_text(&self) -> (r: String)
        ensures
            r@ == join_lines(texts(self.spec_layout())),
    {
        let lines = self.java_properties_lines();
        join_text(&lines)
    }
}

/// Results made twice from one repository state, with the same options and
/// the same build time, give the same properties file.
pub proof fn lemma_properties_idempotent(
    first: Results,
    second: Results,
    snapshot: HeadSnapshot,
    options: Options,
    build: Option<Seq<char>>,
)
    requires
        first.made_from(snapshot, options, build),
        second.made_from(snapshot, options, build),
    ensures
        texts(first.spec_layout()) == texts(second.spec_layout()),
{
}

} // verus!
