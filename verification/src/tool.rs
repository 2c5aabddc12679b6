//! Tool- and node-status records and the outcome record of one
//! install action, as the GUI consumes them.

use vstd::prelude::*;

use crate::text::opt_string_view;
use crate::vendor::dup_opt_string;

verus! {

/// The observable state of one managed tool.
#[derive(Debug, PartialEq)]
pub struct ToolStatus {
    pub installed: bool,
    pub path: Option<String>,
    pub version: Option<String>,
    pub install_method: Option<String>,
    pub running: bool,
}

/// The mathematical model of a tool status.
pub struct ToolStatusModel {
    pub installed: bool,
    pub path: Option<Seq<char>>,
    pub version: Option<Seq<char>>,
    pub install_method: Option<Seq<char>>,
    pub running: bool,
}

impl View for ToolStatus {
    type V = ToolStatusModel;

    open spec fn view(&self) -> ToolStatusModel {
        ToolStatusModel {
            installed: self.installed,
            path: opt_string_view(self.path),
            version: opt_string_view(self.version),
            install_method: opt_string_view(self.install_method),
            running: self.running,
        }
    }
}

impl ToolStatus {
    /// A field-for-field copy of this status.
    pub fn duplicate(&self) -> (r: ToolStatus)
        ensures
            r@ == self@,
    {
        ToolStatus {
            installed: self.installed,
            path: dup_opt_string(&self.path),
            version: dup_opt_string(&self.version),
            install_method: dup_opt_string(&self.install_method),
            running: self.running,
        }
    }
}

/// What one install or uninstall action reported.
#[derive(Debug, PartialEq)]
pub struct InstallResult {
    pub success: bool,
    pub message: String,
    pub output: Option<String>,
}

/// The mathematical model of an install outcome.
pub struct InstallResultModel {
    pub success: bool,
    pub message: Seq<char>,
    pub output: Option<Seq<char>>,
}

impl View for InstallResult {
    type V = InstallResultModel;

    open spec fn view(&self) -> InstallResultModel {
        InstallResultModel {
            success: self.success,
            message: self.message@,
            output: opt_string_view(self.output),
        }
    }
}

/// The observable state of the node runtime and its version manager.
#[derive(Debug, PartialEq)]
pub struct NodeStatus {
    pub node_installed: bool,
    pub node_version: Option<String>,
    pub nvm_installed: bool,
    pub nvm_version: Option<String>,
}

/// The mathematical model of a node status.
pub struct NodeStatusModel {
    pub node_installed: bool,
    pub node_version: Option<Seq<char>>,
    pub nvm_installed: bool,
    pub nvm_version: Option<Seq<char>>,
}

impl View for NodeStatus {
    type V = NodeStatusModel;

    open spec fn view(&self) -> NodeStatusModel {
        NodeStatusModel {
            node_installed: self.node_installed,
            node_version: opt_string_view(self.node_version),
            nvm_installed: self.nvm_installed,
            nvm_version: opt_string_view(self.nvm_version),
        }
    }
}

} // verus!
