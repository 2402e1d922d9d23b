//! Enabling and disabling an extension while the agent runs, with the index of
//! tools kept in step.
use crate::base::{self, Duplicate};
use crate::extension::{ExtensionConfig, ExtensionConfigView};
use crate::text;
use crate::tool::{
    self, ContentView, ErrorData, ErrorDataView, ToolResult, INTERNAL_ERROR, RESOURCE_NOT_FOUND,
};
use crate::tool_router_index_manager::IndexChange;
use vstd::prelude::*;
use vstd::string::*;

verus! {

/// What managing an extension waits for.
#[derive(Debug, Clone, Copy, PartialEq, Eq, Structural)]
pub enum ManagePhase {
    RouterWanted,
    IndexUpdating,
    Removing,
    ConfigWanted,
    Adding,
    RouterWantedAgain,
    IndexUpdatingAgain,
    Closed,
}

impl DeepView for ManagePhase {
    type V = ManagePhase;

    open spec fn deep_view(&self) -> ManagePhase {
        *self
    }
}

impl Duplicate for ManagePhase {
    fn duplicate(&self) -> (r: Self) {
        *self
    }
}

/// An extension that is being enabled or disabled.
#[derive(Debug, PartialEq)]
pub struct ManageExtension {
    pub disable: bool,
    pub extension_name: String,
    pub phase: ManagePhase,
}

#[verifier::ext_equal]
pub struct ManageExtensionView {
    pub disable: bool,
    pub extension_name: Seq<char>,
    pub phase: ManagePhase,
}

impl DeepView for ManageExtension {
    type V = ManageExtensionView;

    open spec fn deep_view(&self) -> ManageExtensionView {
        ManageExtensionView {
            disable: self.disable,
            extension_name: self.extension_name@,
            phase: self.phase,
        }
    }
}

/// What managing an extension asks the outside to do.
#[derive(Debug, PartialEq)]
pub enum ManageAction {
    /// Is there an index of tools that works?
    CheckRouter,
    UpdateIndex { extension_name: String, change: IndexChange },
    RemoveExtension(String),
    FindConfig(String),
    AddExtension(ExtensionConfig),
    Done(ToolResult),
    /// Nothing is to be done.
    Wait,
}

pub enum ManageActionView {
    CheckRouter,
    UpdateIndex { extension_name: Seq<char>, change: IndexChange },
    RemoveExtension(Seq<char>),
    FindConfig(Seq<char>),
    AddExtension(ExtensionConfigView),
    Done(Result<Seq<ContentView>, ErrorDataView>),
    Wait,
}

impl DeepView for ManageAction {
    type V = ManageActionView;

    open spec fn deep_view(&self) -> ManageActionView {
        match self {
            ManageAction::CheckRouter => ManageActionView::CheckRouter,
            ManageAction::UpdateIndex { extension_name, change } => ManageActionView::UpdateIndex {
                extension_name: extension_name@,
                change: *change,
            },
            ManageAction::RemoveExtension(n) => ManageActionView::RemoveExtension(n@),
            ManageAction::FindConfig(n) => ManageActionView::FindConfig(n@),
            ManageAction::AddExtension(c) => ManageActionView::AddExtension(c.deep_view()),
            ManageAction::Done(r) => ManageActionView::Done(tool::tool_result_view(*r)),
            ManageAction::Wait => ManageActionView::Wait,
        }
    }
}

/// What the outside reports while an extension is managed. An error comes by
/// its text.
#[derive(Debug, PartialEq)]
pub enum ManageEvent {
    Router(bool),
    IndexUpdated(Option<String>),
    Removed(Option<String>),
    Config(Result<Option<ExtensionConfig>, String>),
    Added(Option<String>),
}

pub enum ManageEventView {
    Router(bool),
    IndexUpdated(Option<Seq<char>>),
    Removed(Option<Seq<char>>),
    Config(Result<Option<ExtensionConfigView>, Seq<char>>),
    Added(Option<Seq<char>>),
}

impl DeepView for ManageEvent {
    type V = ManageEventView;

    open spec fn deep_view(&self) -> ManageEventView {
        match self {
            ManageEvent::Router(b) => ManageEventView::Router(*b),
            ManageEvent::IndexUpdated(e) => ManageEventView::IndexUpdated(e.deep_view()),
            ManageEvent::Removed(e) => ManageEventView::Removed(e.deep_view()),
            ManageEvent::Config(r) => ManageEventView::Config(
                match r {
                    Ok(c) => Ok(c.deep_view()),
                    Err(e) => Err(e@),
                },
            ),
            ManageEvent::Added(e) => ManageEventView::Added(e.deep_view()),
        }
    }
}

/// A state and the action that leads on from it.
pub type ManageStep = (ManageExtensionView, ManageActionView);

pub open spec fn manage_wait(
    s: ManageExtensionView,
    phase: ManagePhase,
    a: ManageActionView,
) -> ManageStep {
    (ManageExtensionView { phase, ..s }, a)
}

pub open spec fn manage_done(
    s: ManageExtensionView,
    r: Result<Seq<ContentView>, ErrorDataView>,
) -> ManageStep {
    manage_wait(s, ManagePhase::Closed, ManageActionView::Done(r))
}

/// The tools leave the index with an extension that is disabled, and join it
/// with any other.
pub open spec fn change_of(s: ManageExtensionView) -> IndexChange {
    if s.disable {
        IndexChange::Remove
    } else {
        IndexChange::Add
    }
}

/// The start: only the action `disable` disables, and any other one enables.
/// Without the extension manager nothing is done.
pub open spec fn manage_start(
    action: Seq<char>,
    extension_name: Seq<char>,
    available: bool,
) -> ManageStep {
    let s = ManageExtensionView {
        disable: action == "disable"@,
        extension_name,
        phase: ManagePhase::Closed,
    };
    if available {
        manage_wait(s, ManagePhase::RouterWanted, ManageActionView::CheckRouter)
    } else {
        manage_done(
            s,
            tool::failure(INTERNAL_ERROR, "Extension manager is no longer available"@),
        )
    }
}

pub open spec fn index_failed(s: ManageExtensionView, e: Seq<char>) -> ManageStep {
    manage_done(s, tool::failure(INTERNAL_ERROR, "Failed to update LLM index: "@ + e))
}

/// The extension is taken out, or its configuration is looked up.
pub open spec fn manage_change(s: ManageExtensionView) -> ManageStep {
    if s.disable {
        manage_wait(
            s,
            ManagePhase::Removing,
            ManageActionView::RemoveExtension(s.extension_name),
        )
    } else {
        manage_wait(s, ManagePhase::ConfigWanted, ManageActionView::FindConfig(s.extension_name))
    }
}

pub open spec fn installed(s: ManageExtensionView) -> ManageStep {
    manage_done(
        s,
        tool::text_outcome(
            "The extension '"@ + s.extension_name + "' has been installed successfully"@,
        ),
    )
}

/// The step that an event leads to. An event that the phase does not wait for
/// changes nothing.
pub open spec fn manage_step(s: ManageExtensionView, e: ManageEventView) -> ManageStep {
    match (s.phase, e) {
        (ManagePhase::RouterWanted, ManageEventView::Router(true)) => manage_wait(
            s,
            ManagePhase::IndexUpdating,
            ManageActionView::UpdateIndex {
                extension_name: s.extension_name,
                change: change_of(s),
            },
        ),
        (ManagePhase::RouterWanted, ManageEventView::Router(false)) => manage_change(s),
        (ManagePhase::IndexUpdating, ManageEventView::IndexUpdated(None)) => manage_change(s),
        (ManagePhase::IndexUpdating, ManageEventView::IndexUpdated(Some(e))) => index_failed(s, e),
        (ManagePhase::Removing, ManageEventView::Removed(None)) => manage_done(
            s,
            tool::text_outcome(
                "The extension '"@ + s.extension_name + "' has been disabled successfully"@,
            ),
        ),
        (ManagePhase::Removing, ManageEventView::Removed(Some(e))) => manage_done(
            s,
            tool::failure(INTERNAL_ERROR, e),
        ),
        (ManagePhase::ConfigWanted, ManageEventView::Config(Ok(Some(c)))) => manage_wait(
            s,
            ManagePhase::Adding,
            ManageActionView::AddExtension(c),
        ),
        (ManagePhase::ConfigWanted, ManageEventView::Config(Ok(None))) => manage_done(
            s,
            tool::failure(
                RESOURCE_NOT_FOUND,
                "Extension '"@ + s.extension_name
                    + "' not found. Please check the extension name and try again."@,
            ),
        ),
        (ManagePhase::ConfigWanted, ManageEventView::Config(Err(e))) => manage_done(
            s,
            tool::failure(INTERNAL_ERROR, "Failed to get extension config: "@ + e),
        ),
        (ManagePhase::Adding, ManageEventView::Added(None)) => manage_wait(
            s,
            ManagePhase::RouterWantedAgain,
            ManageActionView::CheckRouter,
        ),
        (ManagePhase::Adding, ManageEventView::Added(Some(e))) => manage_done(
            s,
            tool::failure(INTERNAL_ERROR, e),
        ),
        (ManagePhase::RouterWantedAgain, ManageEventView::Router(true)) => manage_wait(
            s,
            ManagePhase::IndexUpdatingAgain,
            ManageActionView::UpdateIndex {
                extension_name: s.extension_name,
                change: change_of(s),
            },
        ),
        (ManagePhase::RouterWantedAgain, ManageEventView::Router(false)) => installed(s),
        (ManagePhase::IndexUpdatingAgain, ManageEventView::IndexUpdated(None)) => installed(s),
        (ManagePhase::IndexUpdatingAgain, ManageEventView::IndexUpdated(Some(e))) => index_failed(
            s,
            e,
        ),
        _ => (s, ManageActionView::Wait),
    }
}

fn error_done(code: i32, message: String) -> (r: ManageAction)
    ensures
        r.deep_view() == ManageActionView::Done(tool::failure(code, message@)),
{
    ManageAction::Done(Err(ErrorData { code, message }))
}

impl ManageExtension {
    fn wait(&mut self, phase: ManagePhase, a: ManageAction) -> (r: ManageAction)
        ensures
            (final(self).deep_view(), r.deep_view()) == manage_wait(
                old(self).deep_view(),
                phase,
                a.deep_view(),
            ),
    {
        self.phase = phase;
        a
    }

    /// Starts to enable or disable an extension.
    pub fn start(action: &str, extension_name: String, available: bool) -> (r: (
        Self,
        ManageAction,
    ))
        ensures
            (r.0.deep_view(), r.1.deep_view()) == manage_start(
                action@,
                extension_name@,
                available,
            ),
    {
        let mut s = ManageExtension {
            disable: text::str_eq(action, "disable"),
            extension_name,
            phase: ManagePhase::Closed,
        };
        let a = if available {
            s.wait(ManagePhase::RouterWanted, ManageAction::CheckRouter)
        } else {
            let done = error_done(
                INTERNAL_ERROR,
                text::owned("Extension manager is no longer available"),
            );
            s.wait(ManagePhase::Closed, done)
        };
        (s, a)
    }

    fn index_failed(&mut self, e: &str) -> (r: ManageAction)
        ensures
            (final(self).deep_view(), r.deep_view()) == index_failed(old(self).deep_view(), e@),
    {
        let done = error_done(INTERNAL_ERROR, text::cat("Failed to update LLM index: ", e));
        self.wait(ManagePhase::Closed, done)
    }

    fn update_index(&mut self, phase: ManagePhase) -> (r: ManageAction)
        ensures
            (final(self).deep_view(), r.deep_view()) == manage_wait(
                old(self).deep_view(),
                phase,
                ManageActionView::UpdateIndex {
                    extension_name: old(self).deep_view().extension_name,
                    change: change_of(old(self).deep_view()),
                },
            ),
    {
        let change = if self.disable {
            IndexChange::Remove
        } else {
            IndexChange::Add
        };
        let a = ManageAction::UpdateIndex { extension_name: self.extension_name.clone(), change };
        self.wait(phase, a)
    }

    fn change(&mut self) -> (r: ManageAction)
        ensures
            (final(self).deep_view(), r.deep_view()) == manage_change(old(self).deep_view()),
    {
        let name = self.extension_name.clone();
        if self.disable {
            self.wait(ManagePhase::Removing, ManageAction::RemoveExtension(name))
        } else {
            self.wait(ManagePhase::ConfigWanted, ManageAction::FindConfig(name))
        }
    }

    fn installed(&mut self) -> (r: ManageAction)
        ensures
            (final(self).deep_view(), r.deep_view()) == installed(old(self).deep_view()),
    {
        let t = text::cat3(
            "The extension '",
            &self.extension_name,
            "' has been installed successfully",
        );
        let done = ManageAction::Done(tool::text_result(t));
        self.wait(ManagePhase::Closed, done)
    }

    /// Takes the step that an event leads to.
    pub fn step(&mut self, event: ManageEvent) -> (r: ManageAction)
        ensures
            (final(self).deep_view(), r.deep_view()) == manage_step(
                old(self).deep_view(),
                event.deep_view(),
            ),
    {
        match (self.phase, event) {
            (ManagePhase::RouterWanted, ManageEvent::Router(works)) => {
                if works {
                    self.update_index(ManagePhase::IndexUpdating)
                } else {
                    self.change()
                }
            },
            (ManagePhase::IndexUpdating, ManageEvent::IndexUpdated(None)) => self.change(),
            (ManagePhase::IndexUpdating, ManageEvent::IndexUpdated(Some(e))) => {
                self.index_failed(&e)
            },
            (ManagePhase::Removing, ManageEvent::Removed(None)) => {
                let t = text::cat3(
                    "The extension '",
                    &self.extension_name,
                    "' has been disabled successfully",
                );
                let done = ManageAction::Done(tool::text_result(t));
                self.wait(ManagePhase::Closed, done)
            },
            (ManagePhase::Removing, ManageEvent::Removed(Some(e))) => {
                self.wait(ManagePhase::Closed, error_done(INTERNAL_ERROR, e))
            },
            (ManagePhase::ConfigWanted, ManageEvent::Config(Ok(Some(c)))) => {
                self.wait(ManagePhase::Adding, ManageAction::AddExtension(c))
            },
            (ManagePhase::ConfigWanted, ManageEvent::Config(Ok(None))) => {
                let message = text::cat3(
                    "Extension '",
                    &self.extension_name,
                    "' not found. Please check the extension name and try again.",
                );
                self.wait(ManagePhase::Closed, error_done(RESOURCE_NOT_FOUND, message))
            },
            (ManagePhase::ConfigWanted, ManageEvent::Config(Err(e))) => {
                let message = text::cat("Failed to get extension config: ", &e);
                self.wait(ManagePhase::Closed, error_done(INTERNAL_ERROR, message))
            },
            (ManagePhase::Adding, ManageEvent::Added(None)) => {
                self.wait(ManagePhase::RouterWantedAgain, ManageAction::CheckRouter)
            },
            (ManagePhase::Adding, ManageEvent::Added(Some(e))) => {
                self.wait(ManagePhase::Closed, error_done(INTERNAL_ERROR, e))
            },
            (ManagePhase::RouterWantedAgain, ManageEvent::Router(works)) => {
                if works {
                    self.update_index(ManagePhase::IndexUpdatingAgain)
                } else {
                    self.installed()
                }
            },
            (ManagePhase::IndexUpdatingAgain, ManageEvent::IndexUpdated(None)) => {
                self.installed()
            },
            (ManagePhase::IndexUpdatingAgain, ManageEvent::IndexUpdated(Some(e))) => {
                self.index_failed(&e)
            },
            _ => ManageAction::Wait,
        }
    }
}

/// An extension that is disabled is never added, and one that is enabled is
/// never taken out; the tools in the index change to the same end.
pub proof fn law_one_direction(s: ManageExtensionView, e: ManageEventView)
    requires
        s.disable ==> s.phase == ManagePhase::RouterWanted || s.phase
            == ManagePhase::IndexUpdating || s.phase == ManagePhase::Removing || s.phase
            == ManagePhase::Closed,
        !s.disable ==> s.phase != ManagePhase::Removing,
    ensures
        ({
            let (t, a) = manage_step(s, e);
            &&& t.disable == s.disable && t.extension_name == s.extension_name
            &&& s.disable ==> !(a is AddExtension) && !(a is FindConfig)
            &&& !s.disable ==> !(a is RemoveExtension)
            &&& a matches ManageActionView::UpdateIndex { change, .. } ==> change == change_of(s)
            &&& s.disable ==> t.phase == ManagePhase::RouterWanted || t.phase
                == ManagePhase::IndexUpdating || t.phase == ManagePhase::Removing || t.phase
                == ManagePhase::Closed
            &&& !s.disable ==> t.phase != ManagePhase::Removing
        }),
{
}

/// Once there is an outcome, nothing more is done.
pub proof fn law_closed_is_final(s: ManageExtensionView, e: ManageEventView)
    requires
        s.phase == ManagePhase::Closed,
    ensures
        manage_step(s, e) == (s, ManageActionView::Wait),
{
}

/// What taking an extension out asks for: its tools leave the index first, where
/// there is a router, since without the extension they are no longer known.
pub open spec fn removal(router: bool, name: Seq<char>) -> Seq<ManageActionView> {
    let remove = ManageActionView::RemoveExtension(name);
    if router {
        seq![
            ManageActionView::UpdateIndex { extension_name: name, change: IndexChange::Remove },
            remove,
        ]
    } else {
        seq![remove]
    }
}

/// What taking an extension out asks for, in order.
pub fn removal_actions(router: bool, name: &str) -> (r: Vec<ManageAction>)
    ensures
        r.deep_view() == removal(router, name@),
{
    let mut out: Vec<ManageAction> = Vec::new();
    if router {
        base::push(
            &mut out,
            ManageAction::UpdateIndex {
                extension_name: text::owned(name),
                change: IndexChange::Remove,
            },
        );
    }
    base::push(&mut out, ManageAction::RemoveExtension(text::owned(name)));
    assert(out.deep_view() =~= removal(router, name@));
    out
}

} // verus!
