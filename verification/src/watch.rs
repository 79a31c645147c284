//! Development mode: what to do about a change below the watched directory
//! of static assets, once the changes of a debounce window are collapsed.
//!
//! The session decides and the caller acts: the caller watches the
//! directory, reads the clock, serves the output directory and carries the
//! actions out.

use crate::article::ArticleView;
use crate::builder::asset_path;
use crate::builder::asset_path_spec;
use crate::builder::build_site;
use crate::builder::is_site_plan;
use crate::builder::is_template;
use crate::builder::steps_view;
use crate::builder::TEMPLATE_NAME;
use crate::builder::BuildStep;
use crate::debounce::changes_view;
use crate::debounce::due_changes;
use crate::debounce::is_earliest_due;
use crate::debounce::still_waiting;
use crate::debounce::without_path;
use crate::debounce::Debouncer;
use crate::debounce::PendingView;
use crate::debounce::DEBOUNCE_MILLIS;
use crate::store::ArticleStore;
use crate::text::last_component;
use crate::text::last_component_of;
use crate::text::strings_view;
use vstd::prelude::*;

verus! {

/// The kind of a change to a file.
#[derive(Clone, Copy, Debug, PartialEq, Eq, Structural)]
pub enum ChangeKind {
    /// The file was made.
    Create,
    /// The file was written to.
    Write,
    /// Anything else: the file was removed, renamed, or its mode changed.
    Other,
}

/// The kind of a change of which a watcher reports that the file was
/// created, written to, removed or renamed, or several of these at once.
pub open spec fn change_kind_spec(created: bool, written: bool, removed: bool, renamed: bool) -> ChangeKind {
    if removed || renamed {
        ChangeKind::Other
    } else if created {
        ChangeKind::Create
    } else if written {
        ChangeKind::Write
    } else {
        ChangeKind::Other
    }
}

impl ChangeKind {
    /// The kind of a change of which a watcher reports that the file was
    /// created, written to, removed or renamed, or several of these at once.
    /// A file that was removed or renamed is not there any more under its
    /// name, whatever else happened to it.
    pub fn of(created: bool, written: bool, removed: bool, renamed: bool) -> (kind: ChangeKind)
        ensures
            kind == change_kind_spec(created, written, removed, renamed),
    {
        if removed || renamed {
            ChangeKind::Other
        } else if created {
            ChangeKind::Create
        } else if written {
            ChangeKind::Write
        } else {
            ChangeKind::Other
        }
    }
}

/// A change to the file at `path`.
#[derive(Debug, PartialEq, Eq)]
pub struct Change {
    pub kind: ChangeKind,
    pub path: String,
}

impl Clone for Change {
    fn clone(&self) -> (copy: Change)
        ensures
            copy@ == self@,
    {
        Change { kind: self.kind, path: self.path.clone() }
    }
}

/// A [`Change`] as contracts see it.
pub struct ChangeView {
    pub kind: ChangeKind,
    pub path: Seq<char>,
}

impl View for Change {
    type V = ChangeView;

    open spec fn view(&self) -> ChangeView {
        ChangeView { kind: self.kind, path: self.path@ }
    }
}

/// What the session asks of the caller about one change.
#[derive(Clone, Debug, PartialEq, Eq)]
pub enum WatchAction {
    /// The template changed: read it again and build the whole site anew
    /// from the articles that the session holds.
    Rebuild,
    /// Another asset changed: copy that file into the output directory.
    CopyAsset { from: String, to: String },
    /// Nothing to do about the file at this path, which was removed, renamed
    /// or the like.
    Ignore { path: String },
}

/// A [`WatchAction`] as contracts see it.
pub enum WatchActionView {
    Rebuild,
    CopyAsset { from: Seq<char>, to: Seq<char> },
    Ignore { path: Seq<char> },
}

impl View for WatchAction {
    type V = WatchActionView;

    open spec fn view(&self) -> WatchActionView {
        match self {
            WatchAction::Rebuild => WatchActionView::Rebuild,
            WatchAction::CopyAsset { from, to } => WatchActionView::CopyAsset {
                from: from@,
                to: to@,
            },
            WatchAction::Ignore { path } => WatchActionView::Ignore { path: path@ },
        }
    }
}

/// What a change asks for. A file that was made or written to is copied
/// into the output directory under its own name, unless it is the template:
/// then the site is built anew. Every other change is ignored.
pub open spec fn classify_spec(change: ChangeView, output_dir: Seq<char>) -> WatchActionView {
    if change.kind == ChangeKind::Other {
        WatchActionView::Ignore { path: change.path }
    } else if last_component_of(change.path) == TEMPLATE_NAME@ {
        WatchActionView::Rebuild
    } else {
        WatchActionView::CopyAsset {
            from: change.path,
            to: asset_path_spec(output_dir, last_component_of(change.path)),
        }
    }
}

/// Decides what a change asks for.
pub fn classify(change: &Change, output_dir: &str) -> (action: WatchAction)
    ensures
        action@ == classify_spec(change@, output_dir@),
{
    match change.kind {
        ChangeKind::Other => WatchAction::Ignore { path: change.path.clone() },
        _ => {
            let name = last_component(change.path.as_str());
            if is_template(name.as_str()) {
                WatchAction::Rebuild
            } else {
                WatchAction::CopyAsset {
                    from: change.path.clone(),
                    to: asset_path(output_dir, name.as_str()),
                }
            }
        },
    }
}

/// The actions of a sequence, as contracts see them.
pub open spec fn actions_view(actions: Seq<WatchAction>) -> Seq<WatchActionView> {
    actions.map_values(|action: WatchAction| action@)
}

/// What the changes ask for, one action for each and in their order.
pub open spec fn actions_spec(changes: Seq<ChangeView>, output_dir: Seq<char>) -> Seq<
    WatchActionView,
> {
    Seq::new(changes.len(), |i: int| classify_spec(changes[i], output_dir))
}

/// A watch session: the articles of the first build, which it owns and
/// never changes, the output directory, and the changes that are held back.
#[derive(Debug)]
pub struct WatchSession {
    store: ArticleStore,
    output_dir: String,
    debouncer: Debouncer,
}

/// A [`WatchSession`] as contracts see it.
pub struct WatchSessionView {
    /// The articles of the first build, in the order in which they came.
    pub articles: Seq<ArticleView>,
    pub output_dir: Seq<char>,
    /// The length of the debounce window, in milliseconds.
    pub window: u64,
    /// The changes that are held back.
    pub pending: Seq<PendingView>,
}

impl View for WatchSession {
    type V = WatchSessionView;

    closed spec fn view(&self) -> WatchSessionView {
        WatchSessionView {
            articles: self.store@,
            output_dir: self.output_dir@,
            window: self.debouncer@.window,
            pending: self.debouncer@.pending,
        }
    }
}

impl WatchSession {
    /// Begins a session after the first build, with the articles of that
    /// build. No change is held yet.
    pub fn start(store: ArticleStore, output_dir: String) -> (session: WatchSession)
        ensures
            session@ == (WatchSessionView {
                articles: store@,
                output_dir: output_dir@,
                window: DEBOUNCE_MILLIS,
                pending: Seq::empty(),
            }),
    {
        WatchSession { store, output_dir, debouncer: Debouncer::new(DEBOUNCE_MILLIS) }
    }

    /// Takes notice of a change that came at `now`, in milliseconds. The
    /// change is held until the debounce window has passed, in place of any
    /// change to the same file that was held.
    pub fn notice(&mut self, change: Change, now: u64)
        ensures
            final(self)@ == (WatchSessionView {
                pending: without_path(old(self)@.pending, change@.path).push(
                    PendingView {
                        change: change@,
                        due: now.saturating_add(old(self)@.window),
                    },
                ),
                ..old(self)@
            }),
    {
        self.debouncer.record(change, now);
    }

    /// What is to be done at `now`: one action for each change that is due,
    /// in the order in which the changes are held. Those changes are held no
    /// longer.
    pub fn poll(&mut self, now: u64) -> (actions: Vec<WatchAction>)
        ensures
            actions_view(actions@) == actions_spec(
                due_changes(old(self)@.pending, now),
                old(self)@.output_dir,
            ),
            final(self)@ == (WatchSessionView {
                pending: still_waiting(old(self)@.pending, now),
                ..old(self)@
            }),
    {
        let due = self.debouncer.take_due(now);
        let ghost changes = due_changes(old(self)@.pending, now);
        let mut actions: Vec<WatchAction> = Vec::new();
        let mut i: usize = 0;
        while i < due.len()
            invariant
                i <= due.len(),
                actions.len() == i,
                changes == changes_view(due@),
                forall|k: int|
                    0 <= k < i ==> (#[trigger] actions@[k])@ == classify_spec(
                        changes[k],
                        self.output_dir@,
                    ),
            decreases due.len() - i,
        {
            assert(changes[i as int] == due@[i as int]@);
            actions.push(classify(&due[i], self.output_dir.as_str()));
            i += 1;
        }
        proof {
            assert(actions_view(actions@) =~= actions_spec(changes, self.output_dir@));
        }
        actions
    }

    /// The earliest instant at which a held change is due; `None` when
    /// nothing is held.
    pub fn next_due(&self) -> (next: Option<u64>)
        ensures
            match next {
                Some(due) => is_earliest_due(self@.pending, due),
                None => self@.pending.len() == 0,
            },
    {
        self.debouncer.next_due()
    }

    /// The articles of the session.
    pub fn articles(&self) -> (store: &ArticleStore)
        ensures
            store@ == self@.articles,
    {
        &self.store
    }

    /// Plans the clean build that a changed template asks for, from the
    /// articles of the session: no content file is read again.
    pub fn rebuild(&self, asset_names: &Vec<String>, template: &str) -> (steps: Vec<BuildStep>)
        ensures
            is_site_plan(
                steps_view(steps@),
                self@.articles,
                self@.output_dir,
                strings_view(asset_names@),
                template@,
            ),
    {
        build_site(&self.store, self.output_dir.as_str(), asset_names, template)
    }
}

} // verus!
