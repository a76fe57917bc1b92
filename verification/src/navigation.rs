//! The directory browser's state: the history of visited directories with a
//! position in it, and the current selection.
//!
//! What the file system says of a path is given by the caller; the browser
//! only keeps the books.  Each step returns the line that the log shows for
//! it.

use crate::text::{same_text, texts};
use vstd::prelude::*;

verus! {

/// The mathematical value of a [`Browser`].
pub struct BrowserView {
    /// The visited directories, the oldest first.
    pub history: Seq<Seq<char>>,
    /// The position of the current directory in the history.
    pub index: int,
    /// The selected paths, in the order of selection.
    pub selected: Seq<Seq<char>>,
}

impl BrowserView {
    /// The directory that is shown.
    pub open spec fn current_dir(self) -> Seq<char> {
        self.history[self.index]
    }

    /// The position lies in the history.
    pub open spec fn wf(self) -> bool {
        0 <= self.index < self.history.len()
    }
}

/// The browser after a visit to `dir`: the directories after the current
/// one are forgotten, `dir` becomes the newest and the current one, and
/// the selection holds `dir` alone where `select` is set, and nothing
/// otherwise.
pub open spec fn after_visit(state: BrowserView, dir: Seq<char>, select: bool) -> BrowserView {
    BrowserView {
        history: state.history.take(state.index + 1).push(dir),
        index: state.index + 1,
        selected: if select {
            seq![dir]
        } else {
            Seq::empty()
        },
    }
}

/// The browser after a folder was picked in a dialog: it becomes the
/// newest and the current one, behind all others, and is selected alone.
pub open spec fn after_pick(state: BrowserView, dir: Seq<char>) -> BrowserView {
    BrowserView {
        history: state.history.push(dir),
        index: state.history.len() as int,
        selected: seq![dir],
    }
}

/// The browser one step away in its history, with nothing selected.
pub open spec fn after_step(state: BrowserView, index: int) -> BrowserView {
    BrowserView { history: state.history, index, selected: Seq::empty() }
}

/// The selection after a click on `path` while the selection is being
/// extended: a selected path leaves the selection, any other joins it at
/// the end.
pub open spec fn after_toggle(selected: Seq<Seq<char>>, path: Seq<char>) -> Seq<Seq<char>> {
    if selected.contains(path) {
        selected.filter(|other: Seq<char>| other != path)
    } else {
        selected.push(path)
    }
}

/// The directory browser.
pub struct Browser {
    history: Vec<String>,
    history_index: usize,
    selected: Vec<String>,
}

impl View for Browser {
    type V = BrowserView;

    closed spec fn view(&self) -> BrowserView {
        BrowserView {
            history: texts(self.history@),
            index: self.history_index as int,
            selected: texts(self.selected@),
        }
    }
}

/// A line of the log: a fixed start, a path, and a line feed.
fn log_line(start: &str, path: &str) -> (line: String)
    ensures
        line@ == start@ + path@ + "\n"@,
{
    let mut line = String::from_str(start);
    line.append(path);
    line.append("\n");
    line
}

impl Browser {
    /// A browser that shows `start` and has visited nothing else.
    pub fn new(start: &str) -> (browser: Browser)
        ensures
            browser@.wf(),
            browser@ == (BrowserView {
                history: seq![start@],
                index: 0,
                selected: Seq::empty(),
            }),
    {
        let mut history: Vec<String> = Vec::new();
        history.push(String::from_str(start));
        let browser = Browser { history, history_index: 0, selected: Vec::new() };
        assert(browser@.history =~= seq![start@]);
        assert(browser@.selected =~= Seq::<Seq<char>>::empty());
        browser
    }

    /// The directory that is shown.
    pub fn current_dir(&self) -> (dir: &String)
        requires
            self@.wf(),
        ensures
            dir@ == self@.current_dir(),
    {
        &self.history[self.history_index]
    }

    /// The selected paths, in the order of selection.
    pub fn selected(&self) -> (paths: &Vec<String>)
        ensures
            texts(paths@) == self@.selected,
    {
        &self.selected
    }

    /// Whether an older directory can be gone back to.
    pub fn can_go_back(&self) -> (yes: bool)
        ensures
            yes == (self@.index > 0),
    {
        self.history_index > 0
    }

    /// Whether a newer directory can be gone forward to.
    pub fn can_go_forward(&self) -> (yes: bool)
        requires
            self@.wf(),
        ensures
            yes == (self@.index + 1 < self@.history.len()),
    {
        let count = self.history.len();
        self.history_index + 1 < count
    }

    /// Whether a path is selected.
    pub fn is_selected(&self, path: &str) -> (yes: bool)
        ensures
            yes == self@.selected.contains(path@),
    {
        let mut i: usize = 0;
        while i < self.selected.len()
            invariant
                i <= self.selected.len(),
                forall|k: int| 0 <= k < i ==> texts(self.selected@)[k] != path@,
            decreases self.selected.len() - i,
        {
            if same_text(self.selected[i].as_str(), path) {
                assert(texts(self.selected@)[i as int] == path@);
                return true;
            }
            i += 1;
        }
        false
    }

    /// Visits `dir`, which the file system calls a directory or not.  A
    /// directory is visited; anything else leaves the browser as it is.
    pub fn navigate_to(&mut self, dir: &str, is_dir: bool, select: bool) -> (line: String)
        requires
            old(self)@.wf(),
        ensures
            final(self)@.wf(),
            is_dir ==> final(self)@ == after_visit(old(self)@, dir@, select) && line@
                == "Navigated to: "@ + dir@ + "\n"@,
            !is_dir ==> final(self)@ == old(self)@ && line@
                == "Error: Cannot navigate to non-directory path: "@ + dir@ + "\n"@,
    {
        if is_dir {
            let ghost before = self@;
            let count = self.history.len();
            if self.history_index + 1 < count {
                self.history.truncate(self.history_index + 1);
            }
            self.history.push(String::from_str(dir));
            self.history_index = self.history.len() - 1;
            self.selected.clear();
            if select {
                self.selected.push(String::from_str(dir));
            }
            assert(self@.history =~= after_visit(before, dir@, select).history);
            assert(self@.selected =~= after_visit(before, dir@, select).selected);
            log_line("Navigated to: ", dir)
        } else {
            log_line("Error: Cannot navigate to non-directory path: ", dir)
        }
    }

    /// Takes a folder picked in a dialog as the directory shown.
    pub fn pick_folder(&mut self, dir: &str) -> (line: String)
        requires
            old(self)@.wf(),
        ensures
            final(self)@.wf(),
            final(self)@ == after_pick(old(self)@, dir@),
            line@ == "Dossier sélectionné : "@ + dir@ + "\n"@,
    {
        let ghost before = self@;
        self.history.push(String::from_str(dir));
        self.history_index = self.history.len() - 1;
        self.selected.clear();
        self.selected.push(String::from_str(dir));
        assert(self@.history =~= after_pick(before, dir@).history);
        assert(self@.selected =~= after_pick(before, dir@).selected);
        log_line("Dossier sélectionné : ", dir)
    }

    /// Goes back to the directory before the current one, if there is one.
    pub fn go_back(&mut self) -> (line: Option<String>)
        requires
            old(self)@.wf(),
        ensures
            final(self)@.wf(),
            old(self)@.index == 0 ==> line is None && final(self)@ == old(self)@,
            old(self)@.index > 0 ==> final(self)@ == after_step(
                old(self)@,
                old(self)@.index - 1,
            ) && line is Some && line->0@ == "Navigated back to: "@ + final(self)@.current_dir()
                + "\n"@,
    {
        if self.history_index > 0 {
            self.history_index -= 1;
            self.selected.clear();
            assert(self@.selected =~= Seq::<Seq<char>>::empty());
            Some(log_line("Navigated back to: ", self.history[self.history_index].as_str()))
        } else {
            None
        }
    }

    /// Goes forward to the directory after the current one, if there is
    /// one.
    pub fn go_forward(&mut self) -> (line: Option<String>)
        requires
            old(self)@.wf(),
        ensures
            final(self)@.wf(),
            old(self)@.index + 1 >= old(self)@.history.len() ==> line is None && final(self)@
                == old(self)@,
            old(self)@.index + 1 < old(self)@.history.len() ==> final(self)@ == after_step(
                old(self)@,
                old(self)@.index + 1,
            ) && line is Some && line->0@ == "Navigated forward to: "@
                + final(self)@.current_dir() + "\n"@,
    {
        let count = self.history.len();
        if self.history_index + 1 < count {
            self.history_index += 1;
            self.selected.clear();
            assert(self@.selected =~= Seq::<Seq<char>>::empty());
            Some(log_line("Navigated forward to: ", self.history[self.history_index].as_str()))
        } else {
            None
        }
    }

    /// Selects `path` alone.
    pub fn select_only(&mut self, path: &str)
        ensures
            final(self)@ == (BrowserView { selected: seq![path@], ..old(self)@ }),
    {
        self.selected.clear();
        self.selected.push(String::from_str(path));
        assert(self@.selected =~= seq![path@]);
    }

    /// Takes `path` out of the selection if it is in it, and into it
    /// otherwise.
    pub fn toggle(&mut self, path: &str)
        ensures
            final(self)@ == (BrowserView {
                selected: after_toggle(old(self)@.selected, path@),
                ..old(self)@
            }),
    {
        let ghost before = self@.selected;
        if self.is_selected(path) {
            let mut kept: Vec<String> = Vec::new();
            let ghost keep = |other: Seq<char>| other != path@;
            let mut i: usize = 0;
            assert(before.take(0).filter(keep) =~= Seq::<Seq<char>>::empty()) by {
                reveal(Seq::filter);
            }
            while i < self.selected.len()
                invariant
                    i <= self.selected.len(),
                    before == texts(self.selected@),
                    keep == |other: Seq<char>| other != path@,
                    texts(kept@) == before.take(i as int).filter(keep),
                decreases self.selected.len() - i,
            {
                if !same_text(self.selected[i].as_str(), path) {
                    kept.push(self.selected[i].clone());
                }
                i += 1;
                proof {
                    assert(before.take(i as int).drop_last() =~= before.take(i - 1));
                    reveal(Seq::filter);
                }
            }
            assert(before.take(self.selected.len() as int) =~= before);
            self.selected = kept;
        } else {
            self.selected.push(String::from_str(path));
            assert(self@.selected =~= before.push(path@));
        }
    }
}

/// Going back and then forward shows the same directory again.
pub proof fn lemma_back_then_forward(state: BrowserView)
    requires
        state.wf(),
        state.index > 0,
    ensures
        after_step(after_step(state, state.index - 1), state.index).current_dir()
            == state.current_dir(),
        after_step(state, state.index - 1).wf(),
{
}

/// After a visit the visited directory is shown and nothing newer is left
/// to go forward to.
pub proof fn lemma_visit_is_newest(state: BrowserView, dir: Seq<char>, select: bool)
    requires
        state.wf(),
    ensures
        after_visit(state, dir, select).wf(),
        after_visit(state, dir, select).current_dir() == dir,
        after_visit(state, dir, select).index + 1 == after_visit(state, dir, select).history.len(),
{
}

} // verus!
