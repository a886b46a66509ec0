//! The data shapes that every plugin, built in or loaded at run time,
//! exchanges with the host.

use std::collections::HashMap;
use vstd::prelude::*;

verus! {

/// A JSON value held in a plugin's free-form configuration.
#[verifier::external_type_specification]
#[verifier::external_body]
pub struct ExJsonValue(serde_json::Value);

/// One action that a result offers, such as "open" or "copy".
#[derive(Clone, Debug)]
pub struct PluginAction {
    pub id: String,
    pub label: String,
    pub shortcut: Option<String>,
}

/// One candidate answer to a query.
#[derive(Clone, Debug)]
pub struct PluginResult {
    /// Handed back to the plugin when one of the actions runs; unique only
    /// within one result list of one plugin.
    pub id: String,
    pub title: String,
    pub subtitle: Option<String>,
    pub icon: Option<String>,
    pub actions: Option<Vec<PluginAction>>,
}

/// A pre-rendered markup payload that replaces the generic result list.
#[derive(Clone, Debug)]
pub struct PluginHtmlResult {
    pub html: String,
}

/// What one search returns: a ranked list of results, or one markup payload.
#[derive(Clone, Debug)]
pub enum PluginSearchResult {
    Results(Vec<PluginResult>),
    Html(PluginHtmlResult),
}

/// Plugin-specific settings, keyed by name.
#[derive(Clone, Debug)]
pub struct PluginConfig {
    pub data: HashMap<String, serde_json::Value>,
}

/// The identity of a plugin. `id` is the registry key and the routing target;
/// `prefix` is what a user types to address the plugin.
#[derive(Clone, Debug)]
pub struct Plugin {
    pub id: String,
    pub name: String,
    pub description: String,
    pub prefix: String,
    pub icon: String,
    pub config: Option<PluginConfig>,
}

/// The action ids of a list, in order.
pub open spec fn action_ids(actions: Seq<PluginAction>) -> Seq<Seq<char>> {
    actions.map_values(|a: PluginAction| a.id@)
}

/// No two elements of `s` are equal.
pub open spec fn all_distinct(s: Seq<Seq<char>>) -> bool {
    forall|i: int, j: int| 0 <= i < j < s.len() ==> s[i] != s[j]
}

impl PluginAction {
    /// The action with this id and label, offered under this shortcut.
    pub open spec fn is(&self, id: Seq<char>, label: Seq<char>, shortcut: Seq<char>) -> bool {
        &&& self.id@ == id
        &&& self.label@ == label
        &&& self.shortcut matches Some(k) && k@ == shortcut
    }
}

impl PluginResult {
    /// A result's action list, where there is one, is not empty and names each
    /// action once.
    pub open spec fn well_formed(&self) -> bool {
        match self.actions {
            None => true,
            Some(a) => a@.len() > 0 && all_distinct(action_ids(a@)),
        }
    }
}

impl PluginSearchResult {
    /// An empty result list: what a search degrades to.
    pub open spec fn is_empty_list(&self) -> bool {
        match self {
            PluginSearchResult::Results(v) => v@.len() == 0,
            PluginSearchResult::Html(_) => false,
        }
    }

    /// A result list every entry of which is well formed.
    pub open spec fn well_formed(&self) -> bool {
        match self {
            PluginSearchResult::Results(v) => forall|i: int|
                0 <= i < v@.len() ==> (#[trigger] v@[i]).well_formed(),
            PluginSearchResult::Html(_) => true,
        }
    }

    /// The outcome of a search that found nothing.
    pub fn empty() -> (r: PluginSearchResult)
        ensures
            r.is_empty_list(),
    {
        PluginSearchResult::Results(Vec::new())
    }
}

impl PluginConfig {
    /// A copy that holds the same settings.
    pub fn duplicate(&self) -> (r: PluginConfig)
        ensures
            r.data@ == self.data@,
    {
        PluginConfig { data: self.data.clone() }
    }
}

impl Plugin {
    /// Two descriptors that name the same plugin in the same words.
    pub open spec fn same_as(&self, other: &Plugin) -> bool {
        &&& self.id@ == other.id@
        &&& self.name@ == other.name@
        &&& self.description@ == other.description@
        &&& self.prefix@ == other.prefix@
        &&& self.icon@ == other.icon@
        &&& match (self.config, other.config) {
            (None, None) => true,
            (Some(a), Some(b)) => a.data@ == b.data@,
            _ => false,
        }
    }

    /// A copy of the descriptor.
    pub fn duplicate(&self) -> (r: Plugin)
        ensures
            r.same_as(self),
    {
        let config = match &self.config {
            None => None,
            Some(c) => Some(c.duplicate()),
        };
        Plugin {
            id: self.id.clone(),
            name: self.name.clone(),
            description: self.description.clone(),
            prefix: self.prefix.clone(),
            icon: self.icon.clone(),
            config,
        }
    }
}

} // verus!
