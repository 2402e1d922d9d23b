//! Extensions: how they are configured and what is told of them.
use crate::base::Duplicate;
use crate::text;
use crate::tool::{Tool, ToolView};
use vstd::prelude::*;
use vstd::string::*;

verus! {

/// What may be done with a tool.
#[derive(Debug, Clone, Copy, PartialEq, Eq, Structural)]
pub enum PermissionLevel {
    AlwaysAllow,
    AskBefore,
    NeverAllow,
}

impl DeepView for PermissionLevel {
    type V = PermissionLevel;

    open spec fn deep_view(&self) -> PermissionLevel {
        *self
    }
}

impl Duplicate for PermissionLevel {
    fn duplicate(&self) -> (r: Self) {
        *self
    }
}

/// How an extension is reached.
#[derive(Debug, PartialEq)]
pub enum ExtensionConfig {
    /// A server that sends events.
    Sse {
        name: String,
        description: String,
        uri: String,
        envs: Vec<(String, String)>,
        env_keys: Vec<String>,
        timeout: Option<u64>,
        bundled: Option<bool>,
        available_tools: Vec<String>,
    },
    /// A server that streams over HTTP.
    StreamableHttp {
        name: String,
        description: String,
        uri: String,
        envs: Vec<(String, String)>,
        env_keys: Vec<String>,
        headers: Vec<(String, String)>,
        timeout: Option<u64>,
        bundled: Option<bool>,
        available_tools: Vec<String>,
    },
    /// A command that talks over its standard streams.
    Stdio {
        name: String,
        description: String,
        cmd: String,
        args: Vec<String>,
        envs: Vec<(String, String)>,
        env_keys: Vec<String>,
        timeout: Option<u64>,
        bundled: Option<bool>,
        available_tools: Vec<String>,
    },
    /// A server that comes with the program.
    Builtin {
        name: String,
        display_name: Option<String>,
        description: String,
        timeout: Option<u64>,
        bundled: Option<bool>,
        available_tools: Vec<String>,
    },
    /// An extension inside the agent.
    Platform {
        name: String,
        display_name: Option<String>,
        description: String,
        bundled: Option<bool>,
        available_tools: Vec<String>,
    },
    /// Python code that is run as a server.
    InlinePython {
        name: String,
        description: String,
        code: String,
        timeout: Option<u64>,
        dependencies: Option<Vec<String>>,
        available_tools: Vec<String>,
    },
    /// Tools that the frontend executes.
    Frontend {
        name: String,
        description: String,
        tools: Vec<Tool>,
        instructions: Option<String>,
        bundled: Option<bool>,
        available_tools: Vec<String>,
    },
}

#[verifier::ext_equal]
pub enum ExtensionConfigView {
    Sse {
        name: Seq<char>,
        description: Seq<char>,
        uri: Seq<char>,
        envs: Seq<(Seq<char>, Seq<char>)>,
        env_keys: Seq<Seq<char>>,
        timeout: Option<u64>,
        bundled: Option<bool>,
        available_tools: Seq<Seq<char>>,
    },
    StreamableHttp {
        name: Seq<char>,
        description: Seq<char>,
        uri: Seq<char>,
        envs: Seq<(Seq<char>, Seq<char>)>,
        env_keys: Seq<Seq<char>>,
        headers: Seq<(Seq<char>, Seq<char>)>,
        timeout: Option<u64>,
        bundled: Option<bool>,
        available_tools: Seq<Seq<char>>,
    },
    Stdio {
        name: Seq<char>,
        description: Seq<char>,
        cmd: Seq<char>,
        args: Seq<Seq<char>>,
        envs: Seq<(Seq<char>, Seq<char>)>,
        env_keys: Seq<Seq<char>>,
        timeout: Option<u64>,
        bundled: Option<bool>,
        available_tools: Seq<Seq<char>>,
    },
    Builtin {
        name: Seq<char>,
        display_name: Option<Seq<char>>,
        description: Seq<char>,
        timeout: Option<u64>,
        bundled: Option<bool>,
        available_tools: Seq<Seq<char>>,
    },
    Platform {
        name: Seq<char>,
        display_name: Option<Seq<char>>,
        description: Seq<char>,
        bundled: Option<bool>,
        available_tools: Seq<Seq<char>>,
    },
    InlinePython {
        name: Seq<char>,
        description: Seq<char>,
        code: Seq<char>,
        timeout: Option<u64>,
        dependencies: Option<Seq<Seq<char>>>,
        available_tools: Seq<Seq<char>>,
    },
    Frontend {
        name: Seq<char>,
        description: Seq<char>,
        tools: Seq<ToolView>,
        instructions: Option<Seq<char>>,
        bundled: Option<bool>,
        available_tools: Seq<Seq<char>>,
    },
}

impl DeepView for ExtensionConfig {
    type V = ExtensionConfigView;

    open spec fn deep_view(&self) -> ExtensionConfigView {
        match self {
            ExtensionConfig::Sse { name, description, uri, envs, env_keys, timeout, bundled, available_tools } => ExtensionConfigView::Sse {
                name: name@,
                description: description@,
                uri: uri@,
                envs: envs.deep_view(),
                env_keys: env_keys.deep_view(),
                timeout: timeout.deep_view(),
                bundled: bundled.deep_view(),
                available_tools: available_tools.deep_view(),
            },
            ExtensionConfig::StreamableHttp { name, description, uri, envs, env_keys, headers, timeout, bundled, available_tools } => ExtensionConfigView::StreamableHttp {
                name: name@,
                description: description@,
                uri: uri@,
                envs: envs.deep_view(),
                env_keys: env_keys.deep_view(),
                headers: headers.deep_view(),
                timeout: timeout.deep_view(),
                bundled: bundled.deep_view(),
                available_tools: available_tools.deep_view(),
            },
            ExtensionConfig::Stdio { name, description, cmd, args, envs, env_keys, timeout, bundled, available_tools } => ExtensionConfigView::Stdio {
                name: name@,
                description: description@,
                cmd: cmd@,
                args: args.deep_view(),
                envs: envs.deep_view(),
                env_keys: env_keys.deep_view(),
                timeout: timeout.deep_view(),
                bundled: bundled.deep_view(),
                available_tools: available_tools.deep_view(),
            },
            ExtensionConfig::Builtin { name, display_name, description, timeout, bundled, available_tools } => ExtensionConfigView::Builtin {
                name: name@,
                display_name: display_name.deep_view(),
                description: description@,
                timeout: timeout.deep_view(),
                bundled: bundled.deep_view(),
                available_tools: available_tools.deep_view(),
            },
            ExtensionConfig::Platform { name, display_name, description, bundled, available_tools } => ExtensionConfigView::Platform {
                name: name@,
                display_name: display_name.deep_view(),
                description: description@,
                bundled: bundled.deep_view(),
                available_tools: available_tools.deep_view(),
            },
            ExtensionConfig::InlinePython { name, description, code, timeout, dependencies, available_tools } => ExtensionConfigView::InlinePython {
                name: name@,
                description: description@,
                code: code@,
                timeout: timeout.deep_view(),
                dependencies: dependencies.deep_view(),
                available_tools: available_tools.deep_view(),
            },
            ExtensionConfig::Frontend { name, description, tools, instructions, bundled, available_tools } => ExtensionConfigView::Frontend {
                name: name@,
                description: description@,
                tools: tools.deep_view(),
                instructions: instructions.deep_view(),
                bundled: bundled.deep_view(),
                available_tools: available_tools.deep_view(),
            },
        }
    }
}

impl Duplicate for ExtensionConfig {
    fn duplicate(&self) -> (r: Self) {
        match self {
            ExtensionConfig::Sse { name, description, uri, envs, env_keys, timeout, bundled, available_tools } => ExtensionConfig::Sse {
                name: name.clone(),
                description: description.clone(),
                uri: uri.clone(),
                envs: envs.duplicate(),
                env_keys: env_keys.duplicate(),
                timeout: timeout.duplicate(),
                bundled: bundled.duplicate(),
                available_tools: available_tools.duplicate(),
            },
            ExtensionConfig::StreamableHttp { name, description, uri, envs, env_keys, headers, timeout, bundled, available_tools } => ExtensionConfig::StreamableHttp {
                name: name.clone(),
                description: description.clone(),
                uri: uri.clone(),
                envs: envs.duplicate(),
                env_keys: env_keys.duplicate(),
                headers: headers.duplicate(),
                timeout: timeout.duplicate(),
                bundled: bundled.duplicate(),
                available_tools: available_tools.duplicate(),
            },
            ExtensionConfig::Stdio { name, description, cmd, args, envs, env_keys, timeout, bundled, available_tools } => ExtensionConfig::Stdio {
                name: name.clone(),
                description: description.clone(),
                cmd: cmd.clone(),
                args: args.duplicate(),
                envs: envs.duplicate(),
                env_keys: env_keys.duplicate(),
                timeout: timeout.duplicate(),
                bundled: bundled.duplicate(),
                available_tools: available_tools.duplicate(),
            },
            ExtensionConfig::Builtin { name, display_name, description, timeout, bundled, available_tools } => ExtensionConfig::Builtin {
                name: name.clone(),
                display_name: display_name.duplicate(),
                description: description.clone(),
                timeout: timeout.duplicate(),
                bundled: bundled.duplicate(),
                available_tools: available_tools.duplicate(),
            },
            ExtensionConfig::Platform { name, display_name, description, bundled, available_tools } => ExtensionConfig::Platform {
                name: name.clone(),
                display_name: display_name.duplicate(),
                description: description.clone(),
                bundled: bundled.duplicate(),
                available_tools: available_tools.duplicate(),
            },
            ExtensionConfig::InlinePython { name, description, code, timeout, dependencies, available_tools } => ExtensionConfig::InlinePython {
                name: name.clone(),
                description: description.clone(),
                code: code.clone(),
                timeout: timeout.duplicate(),
                dependencies: dependencies.duplicate(),
                available_tools: available_tools.duplicate(),
            },
            ExtensionConfig::Frontend { name, description, tools, instructions, bundled, available_tools } => ExtensionConfig::Frontend {
                name: name.clone(),
                description: description.clone(),
                tools: tools.duplicate(),
                instructions: instructions.duplicate(),
                bundled: bundled.duplicate(),
                available_tools: available_tools.duplicate(),
            },
        }
    }
}

impl ExtensionConfigView {
    /// The name of the extension.
    pub open spec fn name(self) -> Seq<char> {
        match self {
            ExtensionConfigView::Sse { name, .. } => name,
            ExtensionConfigView::StreamableHttp { name, .. } => name,
            ExtensionConfigView::Stdio { name, .. } => name,
            ExtensionConfigView::Builtin { name, .. } => name,
            ExtensionConfigView::Platform { name, .. } => name,
            ExtensionConfigView::InlinePython { name, .. } => name,
            ExtensionConfigView::Frontend { name, .. } => name,
        }
    }

    /// What the extension is for.
    pub open spec fn description(self) -> Seq<char> {
        match self {
            ExtensionConfigView::Sse { description, .. } => description,
            ExtensionConfigView::StreamableHttp { description, .. } => description,
            ExtensionConfigView::Stdio { description, .. } => description,
            ExtensionConfigView::Builtin { description, .. } => description,
            ExtensionConfigView::Platform { description, .. } => description,
            ExtensionConfigView::InlinePython { description, .. } => description,
            ExtensionConfigView::Frontend { description, .. } => description,
        }
    }

    /// The tools that are offered, or none where all are.
    pub open spec fn available_tools(self) -> Seq<Seq<char>> {
        match self {
            ExtensionConfigView::Sse { available_tools, .. } => available_tools,
            ExtensionConfigView::StreamableHttp { available_tools, .. } => available_tools,
            ExtensionConfigView::Stdio { available_tools, .. } => available_tools,
            ExtensionConfigView::Builtin { available_tools, .. } => available_tools,
            ExtensionConfigView::Platform { available_tools, .. } => available_tools,
            ExtensionConfigView::InlinePython { available_tools, .. } => available_tools,
            ExtensionConfigView::Frontend { available_tools, .. } => available_tools,
        }
    }

    /// Whether a tool is offered: an empty list offers all.
    pub open spec fn offers(self, tool: Seq<char>) -> bool {
        self.available_tools().len() == 0 || self.available_tools().contains(tool)
    }

    /// The description in a list of extensions. A built-in extension without
    /// one is described by its display name.
    pub open spec fn shown_description(self) -> Seq<char> {
        match self {
            ExtensionConfigView::Builtin { description, display_name, .. } => if description.len()
                == 0 {
                match display_name {
                    Some(d) => d,
                    None => "Built-in extension"@,
                }
            } else {
                description
            },
            _ => self.description(),
        }
    }
}

impl ExtensionConfig {
    /// The name of the extension.
    pub fn name(&self) -> (r: &String)
        ensures
            r@ == self.deep_view().name(),
    {
        match self {
            ExtensionConfig::Sse { name, .. } => name,
            ExtensionConfig::StreamableHttp { name, .. } => name,
            ExtensionConfig::Stdio { name, .. } => name,
            ExtensionConfig::Builtin { name, .. } => name,
            ExtensionConfig::Platform { name, .. } => name,
            ExtensionConfig::InlinePython { name, .. } => name,
            ExtensionConfig::Frontend { name, .. } => name,
        }
    }

    /// The description in a list of extensions.
    pub fn list_description(&self) -> (r: String)
        ensures
            r@ == self.deep_view().shown_description(),
    {
        match self {
            ExtensionConfig::Builtin { description, display_name, .. } => {
                if description.as_str().is_empty() {
                    match display_name {
                        Some(d) => d.clone(),
                        None => text::owned("Built-in extension"),
                    }
                } else {
                    description.clone()
                }
            },
            ExtensionConfig::Platform { description, .. }
            | ExtensionConfig::Sse { description, .. }
            | ExtensionConfig::StreamableHttp { description, .. }
            | ExtensionConfig::Stdio { description, .. }
            | ExtensionConfig::Frontend { description, .. }
            | ExtensionConfig::InlinePython { description, .. } => description.clone(),
        }
    }

    /// Whether a tool is offered: an empty list offers all.
    pub fn is_tool_available(&self, tool: &str) -> (r: bool)
        ensures
            r == self.deep_view().offers(tool@),
    {
        let list = match self {
            ExtensionConfig::Sse { available_tools, .. } => available_tools,
            ExtensionConfig::StreamableHttp { available_tools, .. } => available_tools,
            ExtensionConfig::Stdio { available_tools, .. } => available_tools,
            ExtensionConfig::Builtin { available_tools, .. } => available_tools,
            ExtensionConfig::Platform { available_tools, .. } => available_tools,
            ExtensionConfig::InlinePython { available_tools, .. } => available_tools,
            ExtensionConfig::Frontend { available_tools, .. } => available_tools,
        };
        assert(text::texts(list@) =~= list.deep_view());
        list.len() == 0 || text::list_contains(list, tool)
    }
}

/// What the system prompt tells of an extension.
#[derive(Debug, PartialEq)]
pub struct ExtensionInfo {
    pub name: String,
    pub instructions: String,
    pub has_resources: bool,
}

#[verifier::ext_equal]
pub struct ExtensionInfoView {
    pub name: Seq<char>,
    pub instructions: Seq<char>,
    pub has_resources: bool,
}

impl DeepView for ExtensionInfo {
    type V = ExtensionInfoView;

    open spec fn deep_view(&self) -> ExtensionInfoView {
        ExtensionInfoView {
            name: self.name@,
            instructions: self.instructions@,
            has_resources: self.has_resources,
        }
    }
}

impl Duplicate for ExtensionInfo {
    fn duplicate(&self) -> (r: Self) {
        ExtensionInfo {
            name: self.name.clone(),
            instructions: self.instructions.clone(),
            has_resources: self.has_resources,
        }
    }
}

/// What is told of a tool.
#[derive(Debug, PartialEq)]
pub struct ToolInfo {
    pub name: String,
    pub description: String,
    pub parameters: Vec<String>,
    pub permission: Option<PermissionLevel>,
}

#[verifier::ext_equal]
pub struct ToolInfoView {
    pub name: Seq<char>,
    pub description: Seq<char>,
    pub parameters: Seq<Seq<char>>,
    pub permission: Option<PermissionLevel>,
}

impl DeepView for ToolInfo {
    type V = ToolInfoView;

    open spec fn deep_view(&self) -> ToolInfoView {
        ToolInfoView {
            name: self.name@,
            description: self.description@,
            parameters: self.parameters.deep_view(),
            permission: self.permission.deep_view(),
        }
    }
}

impl Duplicate for ToolInfo {
    fn duplicate(&self) -> (r: Self) {
        ToolInfo {
            name: self.name.clone(),
            description: self.description.clone(),
            parameters: self.parameters.duplicate(),
            permission: self.permission.duplicate(),
        }
    }
}

/// An extension inside the agent, as the agent knows it.
#[derive(Debug, PartialEq)]
pub struct PlatformExtensionDef {
    pub name: String,
    pub display_name: String,
    pub description: String,
}

#[verifier::ext_equal]
pub struct PlatformExtensionDefView {
    pub name: Seq<char>,
    pub display_name: Seq<char>,
    pub description: Seq<char>,
}

impl DeepView for PlatformExtensionDef {
    type V = PlatformExtensionDefView;

    open spec fn deep_view(&self) -> PlatformExtensionDefView {
        PlatformExtensionDefView {
            name: self.name@,
            display_name: self.display_name@,
            description: self.description@,
        }
    }
}

impl Duplicate for PlatformExtensionDef {
    fn duplicate(&self) -> (r: Self) {
        PlatformExtensionDef {
            name: self.name.clone(),
            display_name: self.display_name.clone(),
            description: self.description.clone(),
        }
    }
}

/// Why an extension cannot be used.
#[derive(Debug, PartialEq)]
pub enum ExtensionError {
    ConfigError(String),
    SetupError(String),
    /// Any other failure, by its text.
    Other(String),
}

#[verifier::ext_equal]
pub enum ExtensionErrorView {
    ConfigError(Seq<char>),
    SetupError(Seq<char>),
    Other(Seq<char>),
}

impl DeepView for ExtensionError {
    type V = ExtensionErrorView;

    open spec fn deep_view(&self) -> ExtensionErrorView {
        match self {
            ExtensionError::ConfigError(e) => ExtensionErrorView::ConfigError(e@),
            ExtensionError::SetupError(e) => ExtensionErrorView::SetupError(e@),
            ExtensionError::Other(e) => ExtensionErrorView::Other(e@),
        }
    }
}

} // verus!
