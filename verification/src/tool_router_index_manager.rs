//! The index of tools that a model searches, as extensions come and go.
use crate::base::{self, Duplicate};
use crate::text;
use crate::tool::{Tool, ToolView};
use vstd::prelude::*;
use vstd::string::*;

verus! {

/// What happens to the tools of an extension in the index.
#[derive(Debug, Clone, Copy, PartialEq, Eq, Structural)]
pub enum IndexChange {
    Add,
    Remove,
}

impl DeepView for IndexChange {
    type V = IndexChange;

    open spec fn deep_view(&self) -> IndexChange {
        *self
    }
}

impl Duplicate for IndexChange {
    fn duplicate(&self) -> (r: Self) {
        *self
    }
}

/// What is asked of the index.
#[derive(Debug, PartialEq)]
pub enum IndexStep {
    /// Take all tools in at once.
    IndexAll(Vec<Tool>),
    /// Take the tools with these names out, one after the other.
    RemoveEach(Vec<String>),
    Nothing,
}

#[verifier::ext_equal]
pub enum IndexStepView {
    IndexAll(Seq<ToolView>),
    RemoveEach(Seq<Seq<char>>),
    Nothing,
}

impl DeepView for IndexStep {
    type V = IndexStepView;

    open spec fn deep_view(&self) -> IndexStepView {
        match self {
            IndexStep::IndexAll(x) => IndexStepView::IndexAll(x.deep_view()),
            IndexStep::RemoveEach(x) => IndexStepView::RemoveEach(x.deep_view()),
            IndexStep::Nothing => IndexStepView::Nothing,
        }
    }
}

/// Keeps the index of tools in step with the connected extensions.
pub struct ToolRouterIndexManager;

/// The change that a word stands for.
pub open spec fn index_change(action: Seq<char>) -> Option<IndexChange> {
    if action == "add"@ {
        Some(IndexChange::Add)
    } else if action == "remove"@ {
        Some(IndexChange::Remove)
    } else {
        None
    }
}

/// What is asked of the index: an extension without tools is not taken in.
pub open spec fn index_step(change: IndexChange, tools: Seq<ToolView>) -> IndexStepView {
    match change {
        IndexChange::Add => if tools.len() > 0 {
            IndexStepView::IndexAll(tools)
        } else {
            IndexStepView::Nothing
        },
        IndexChange::Remove => IndexStepView::RemoveEach(
            tools.map_values(|t: ToolView| t.name),
        ),
    }
}

impl ToolRouterIndexManager {
    /// The change that a word stands for, or the error that there is none.
    pub fn parse_action(action: &str) -> (r: Result<IndexChange, String>)
        ensures
            match r {
                Ok(c) => index_change(action@) == Some(c),
                Err(e) => index_change(action@) is None && e@ == "Invalid action: "@ + action@,
            },
    {
        if text::str_eq(action, "add") {
            Ok(IndexChange::Add)
        } else if text::str_eq(action, "remove") {
            Ok(IndexChange::Remove)
        } else {
            Err(text::cat("Invalid action: ", action))
        }
    }

    /// What is asked of the index, given the tools of the extension.
    pub fn update_extension_tools(change: IndexChange, tools: Vec<Tool>) -> (r: IndexStep)
        ensures
            r.deep_view() == index_step(change, tools.deep_view()),
    {
        match change {
            IndexChange::Add => {
                if tools.len() > 0 {
                    IndexStep::IndexAll(tools)
                } else {
                    IndexStep::Nothing
                }
            },
            IndexChange::Remove => {
                let ghost all = tools.deep_view().map_values(|t: ToolView| t.name);
                let mut names: Vec<String> = Vec::new();
                let mut i: usize = 0;
                while i < tools.len()
                    invariant
                        i <= tools@.len(),
                        all == tools.deep_view().map_values(|t: ToolView| t.name),
                        names.deep_view() == all.take(i as int),
                    decreases tools@.len() - i,
                {
                    base::push(&mut names, tools[i].name.clone());
                    assert(names.deep_view() =~= all.take(i + 1));
                    i = i + 1;
                }
                assert(names.deep_view() =~= all);
                IndexStep::RemoveEach(names)
            },
        }
    }

    /// The error where the tools of an extension cannot be taken in.
    pub fn index_error(extension_name: &str, cause: &str) -> (r: String)
        ensures
            r@ == "Failed to index tools for extension "@ + extension_name@ + ": "@ + cause@,
    {
        let mut e = text::cat3("Failed to index tools for extension ", extension_name, ": ");
        e.append(cause);
        e
    }

    /// The error where a tool of an extension cannot be taken out.
    pub fn remove_error(tool_name: &str, extension_name: &str, cause: &str) -> (r: String)
        ensures
            r@ == "Failed to remove tool "@ + tool_name@ + " for extension "@ + extension_name@
                + ": "@ + cause@,
    {
        let mut e = text::cat5(
            "Failed to remove tool ",
            tool_name,
            " for extension ",
            extension_name,
            ": ",
        );
        e.append(cause);
        e
    }
}

} // verus!
