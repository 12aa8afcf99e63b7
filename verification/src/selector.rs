//! The selection state machine: one step per line of console input,
//! accumulating an ordered, possibly-duplicated list of regular-file paths.
//!
//! The caller (the binary around the library) reads lines, normalises them
//! with [`crate::input::strip_line`], asks the filesystem whether the line
//! names a regular file or expands a wildcard pattern, and hands the
//! outcome in as a [`SelectorEvent`]; every decision is made here.

use vstd::prelude::*;

verus! {

/// One filesystem match from wildcard expansion: the matched path and
/// whether it is a regular file.
pub struct GlobEntry {
    pub path: String,
    pub is_file: bool,
}

/// What the console and the filesystem reported for one iteration of the
/// selection loop, after the line was trimmed and unquoted.
pub enum SelectorEvent {
    /// The stripped line was empty.
    EmptyLine,
    /// The stripped line named an existing regular file.
    ExistingFile { path: String },
    /// The stripped line held a wildcard marker; these are the pattern's
    /// matches, in the order the filesystem yielded them.
    GlobMatches { matches: Vec<GlobEntry> },
    /// The stripped line named no existing file and held no wildcard.
    Invalid,
}

/// What the caller must do after a selector step.
#[derive(Debug, PartialEq, Eq, Structural)]
pub enum SelectorAction {
    /// Selection is complete: start the merge.
    Done,
    /// Warn that at least one file path must be entered, then re-prompt.
    NeedAtLeastOne,
    /// Warn that the input is not a valid path, then re-prompt.
    NotAValidPath,
    /// Re-prompt with no warning.
    Continue,
}

/// The paths of the regular files among the matches, in match order.
pub open spec fn glob_file_paths(entries: Seq<GlobEntry>) -> Seq<Seq<char>>
    decreases entries.len(),
{
    if entries.len() == 0 {
        Seq::empty()
    } else {
        let rest = glob_file_paths(entries.drop_last());
        if entries.last().is_file {
            rest.push(entries.last().path@)
        } else {
            rest
        }
    }
}

/// The selection list after one step on the given event.
pub open spec fn step_files(files: Seq<Seq<char>>, ev: SelectorEvent) -> Seq<Seq<char>> {
    match ev {
        SelectorEvent::EmptyLine => files,
        SelectorEvent::ExistingFile { path } => files.push(path@),
        SelectorEvent::GlobMatches { matches } => files + glob_file_paths(matches@),
        SelectorEvent::Invalid => files,
    }
}

/// The action a step on the given event demands of the caller.
pub open spec fn step_action(files: Seq<Seq<char>>, ev: SelectorEvent) -> SelectorAction {
    match ev {
        SelectorEvent::EmptyLine => if files.len() == 0 {
            SelectorAction::NeedAtLeastOne
        } else {
            SelectorAction::Done
        },
        SelectorEvent::ExistingFile { path: _ } => SelectorAction::Continue,
        SelectorEvent::GlobMatches { matches: _ } => SelectorAction::Continue,
        SelectorEvent::Invalid => SelectorAction::NotAValidPath,
    }
}

/// The selection lists produced by a run of steps, one per event.
pub open spec fn run_selector(files: Seq<Seq<char>>, evs: Seq<SelectorEvent>) -> Seq<Seq<char>>
    decreases evs.len(),
{
    if evs.len() == 0 {
        files
    } else {
        run_selector(step_files(files, evs[0]), evs.drop_first())
    }
}

/// Accumulates the ordered selection list; its view is the sequence of
/// selected paths, in selection order.
pub struct Selector {
    pub files: Vec<String>,
}

impl View for Selector {
    type V = Seq<Seq<char>>;

    open spec fn view(&self) -> Seq<Seq<char>> {
        self.files.deep_view()
    }
}

impl Selector {
    /// An empty selection.
    pub fn new() -> (s: Selector)
        ensures
            s@ == Seq::<Seq<char>>::empty(),
    {
        let files: Vec<String> = Vec::new();
        let s = Selector { files };
        proof {
            assert(s@ =~= Seq::<Seq<char>>::empty());
        }
        s
    }

    /// How many paths have been selected so far.
    pub fn count(&self) -> (n: usize)
        ensures
            n == self@.len(),
    {
        self.files.len()
    }

    /// The prompt shown before the next line of input is read.
    pub fn prompt(&self) -> (p: &'static str)
        ensures
            self@.len() == 0 ==> p@ == "File Path: "@,
            self@.len() > 0 ==> p@ == "File Path or Press Enter to start merge: "@,
    {
        if self.files.len() == 0 {
            "File Path: "
        } else {
            "File Path or Press Enter to start merge: "
        }
    }

    /// One iteration of the selection loop: updates the selection list as
    /// [`step_files`] says and demands of the caller what [`step_action`]
    /// says.
    pub fn step(&mut self, ev: SelectorEvent) -> (act: SelectorAction)
        ensures
            final(self)@ == step_files(old(self)@, ev),
            act == step_action(old(self)@, ev),
    {
        match ev {
            SelectorEvent::EmptyLine => {
                if self.files.len() == 0 {
                    SelectorAction::NeedAtLeastOne
                } else {
                    SelectorAction::Done
                }
            },
            SelectorEvent::ExistingFile { path } => {
                let ghost pre = self.files.deep_view();
                let ghost p = path@;
                self.files.push(path);
                proof {
                    assert(self.files.deep_view() =~= pre.push(p));
                }
                SelectorAction::Continue
            },
            SelectorEvent::GlobMatches { matches } => {
                let ghost pre = self.files.deep_view();
                let mut i: usize = 0;
                let n = matches.len();
                proof {
                    assert(matches@.take(0) =~= Seq::<GlobEntry>::empty());
                }
                while i < n
                    invariant
                        n == matches@.len(),
                        i <= n,
                        self.files.deep_view() == pre + glob_file_paths(matches@.take(i as int)),
                    decreases n - i,
                {
                    let ghost before = self.files.deep_view();
                    if matches[i].is_file {
                        let p = matches[i].path.clone();
                        self.files.push(p);
                        proof {
                            assert(self.files.deep_view() =~= before.push(matches@[i as int].path@));
                        }
                    }
                    proof {
                        let taken = matches@.take(i as int + 1);
                        assert(taken.drop_last() =~= matches@.take(i as int));
                        assert(taken.last() == matches@[i as int]);
                        assert(self.files.deep_view() =~= pre + glob_file_paths(taken));
                    }
                    i = i + 1;
                }
                proof {
                    assert(matches@.take(n as int) =~= matches@);
                }
                SelectorAction::Continue
            },
            SelectorEvent::Invalid => SelectorAction::NotAValidPath,
        }
    }
}

/// Every path that a wildcard yields into the selection was a regular file
/// at selection time, and a selection built only from existing regular
/// files and wildcard expansions keeps them in discovery order.
///
/// For any run of events that each name an existing regular file, started
/// from any selection, the selector ends with the prior selection followed
/// by exactly those paths, in input order; if at least one event was seen,
/// an empty line then completes the selection.
pub proof fn lemma_selector_input_order(files: Seq<Seq<char>>, evs: Seq<SelectorEvent>)
    requires
        forall|i: int| 0 <= i < evs.len() ==> evs[i] is ExistingFile,
    ensures
        run_selector(files, evs).len() == files.len() + evs.len(),
        forall|i: int| 0 <= i < files.len() ==> run_selector(files, evs)[i] == files[i],
        forall|i: int|
            0 <= i < evs.len() ==> run_selector(files, evs)[files.len() + i] == evs[i]->path@,
        evs.len() >= 1 ==> step_action(run_selector(files, evs), SelectorEvent::EmptyLine)
            == SelectorAction::Done,
    decreases evs.len(),
{
    if evs.len() > 0 {
        let stepped = step_files(files, evs[0]);
        assert(stepped == files.push(evs[0]->path@));
        lemma_selector_input_order(stepped, evs.drop_first());
        assert forall|i: int| 0 <= i < files.len() implies run_selector(files, evs)[i]
            == files[i] by {
            assert(run_selector(files, evs)[i] == stepped[i]);
        }
        assert forall|i: int| 0 <= i < evs.len() implies run_selector(files, evs)[files.len() + i]
            == evs[i]->path@ by {
            if i == 0 {
                assert(run_selector(files, evs)[files.len() as int] == stepped[files.len() as int]);
            } else {
                assert(evs.drop_first()[i - 1] == evs[i]);
            }
        }
    }
}

/// An empty line while the selection is still empty never completes the
/// selection: the selector asks for at least one path and its state is
/// unchanged.
pub proof fn lemma_empty_input_re_prompts(files: Seq<Seq<char>>)
    requires
        files.len() == 0,
    ensures
        step_action(files, SelectorEvent::EmptyLine) == SelectorAction::NeedAtLeastOne,
        step_action(files, SelectorEvent::EmptyLine) != SelectorAction::Done,
        step_files(files, SelectorEvent::EmptyLine) == files,
{
}

/// A wildcard pattern that matched nothing leaves the selection unchanged,
/// and the loop goes on without a warning.
pub proof fn lemma_glob_no_matches(files: Seq<Seq<char>>, matches: Vec<GlobEntry>)
    requires
        matches@.len() == 0,
    ensures
        step_files(files, SelectorEvent::GlobMatches { matches }) == files,
        step_action(files, SelectorEvent::GlobMatches { matches }) == SelectorAction::Continue,
{
    assert(files + glob_file_paths(matches@) =~= files);
}

/// No entry that is not a regular file reaches the selection.
proof fn lemma_glob_paths_no_files(entries: Seq<GlobEntry>)
    requires
        forall|i: int| 0 <= i < entries.len() ==> !entries[i].is_file,
    ensures
        glob_file_paths(entries) == Seq::<Seq<char>>::empty(),
    decreases entries.len(),
{
    if entries.len() > 0 {
        lemma_glob_paths_no_files(entries.drop_last());
    }
}

/// A wildcard pattern whose matches are all directories adds no entry to
/// the selection.
pub proof fn lemma_glob_only_directories(files: Seq<Seq<char>>, matches: Vec<GlobEntry>)
    requires
        forall|i: int| 0 <= i < matches@.len() ==> !matches@[i].is_file,
    ensures
        step_files(files, SelectorEvent::GlobMatches { matches }) == files,
{
    lemma_glob_paths_no_files(matches@);
    assert(files + glob_file_paths(matches@) =~= files);
}

} // verus!
