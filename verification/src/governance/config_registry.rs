//! The registry of governance parameters: every parameter with its live
//! value, the proposals to change one, and the record of what was changed.
//!
//! A proposal is born pending. It can be approved and then activated, or
//! rejected while pending, or cancelled before it is activated. Activation
//! alone changes a live value, and every change of a live value leaves one
//! record in the history.

use vstd::prelude::*;
use vstd::string::*;
use crate::collections::lemma_insert_in_order;
use crate::error::{config_error, database_error, GovernanceError};
use crate::governance::config_value::{
    copy_opt_text, opt_str, opt_text, own_opt_str, ConfigValue, ConfigValueView,
};
use crate::text::{
    contains, contains_text, lemma_text_order_total, lemma_text_order_transitive, str_equal,
    text_before, text_less,
};

verus! {

/// The kind of a governance parameter.
#[derive(Debug, Clone, Copy, PartialEq, Eq, Structural)]
pub enum ConfigCategory {
    FeatureFlags,
    Thresholds,
    TimeWindows,
    Limits,
    Network,
    Security,
    Other,
}

impl ConfigCategory {
    /// The name under which the category is stored.
    pub open spec fn name(self) -> Seq<char> {
        match self {
            ConfigCategory::FeatureFlags => "feature_flags"@,
            ConfigCategory::Thresholds => "thresholds"@,
            ConfigCategory::TimeWindows => "time_windows"@,
            ConfigCategory::Limits => "limits"@,
            ConfigCategory::Network => "network"@,
            ConfigCategory::Security => "security"@,
            ConfigCategory::Other => "other"@,
        }
    }

    /// The category stored under a name.
    pub open spec fn from_name(s: Seq<char>) -> Option<ConfigCategory> {
        if s == "feature_flags"@ {
            Some(ConfigCategory::FeatureFlags)
        } else if s == "thresholds"@ {
            Some(ConfigCategory::Thresholds)
        } else if s == "time_windows"@ {
            Some(ConfigCategory::TimeWindows)
        } else if s == "limits"@ {
            Some(ConfigCategory::Limits)
        } else if s == "network"@ {
            Some(ConfigCategory::Network)
        } else if s == "security"@ {
            Some(ConfigCategory::Security)
        } else if s == "other"@ {
            Some(ConfigCategory::Other)
        } else {
            None
        }
    }

    /// Where the category stands among the categories in the order of
    /// their names.
    pub open spec fn rank(self) -> int {
        match self {
            ConfigCategory::FeatureFlags => 0,
            ConfigCategory::Limits => 1,
            ConfigCategory::Network => 2,
            ConfigCategory::Other => 3,
            ConfigCategory::Security => 4,
            ConfigCategory::Thresholds => 5,
            ConfigCategory::TimeWindows => 6,
        }
    }

    /// Where the category stands among the categories in the order of
    /// their names.
    pub fn position(&self) -> (rank: u8)
        ensures
            rank == self.rank(),
    {
        match self {
            ConfigCategory::FeatureFlags => 0,
            ConfigCategory::Limits => 1,
            ConfigCategory::Network => 2,
            ConfigCategory::Other => 3,
            ConfigCategory::Security => 4,
            ConfigCategory::Thresholds => 5,
            ConfigCategory::TimeWindows => 6,
        }
    }

    /// The name under which the category is stored. Reading the name back
    /// gives the category.
    pub fn as_str(&self) -> (s: &'static str)
        ensures
            s@ == self.name(),
            ConfigCategory::from_name(s@) == Some(*self),
    {
        proof {
            reveal_strlit("feature_flags");
            reveal_strlit("thresholds");
            reveal_strlit("time_windows");
            reveal_strlit("limits");
            reveal_strlit("network");
            reveal_strlit("security");
            reveal_strlit("other");
            assert("feature_flags"@.len() == 13);
        }
        match self {
            ConfigCategory::FeatureFlags => "feature_flags",
            ConfigCategory::Thresholds => "thresholds",
            ConfigCategory::TimeWindows => "time_windows",
            ConfigCategory::Limits => "limits",
            ConfigCategory::Network => "network",
            ConfigCategory::Security => "security",
            ConfigCategory::Other => "other",
        }
    }

    /// The category stored under a name, nothing for an unknown name.
    pub fn from_str(s: &str) -> (c: Option<ConfigCategory>)
        ensures
            c == ConfigCategory::from_name(s@),
    {
        if str_equal(s, "feature_flags") {
            Some(ConfigCategory::FeatureFlags)
        } else if str_equal(s, "thresholds") {
            Some(ConfigCategory::Thresholds)
        } else if str_equal(s, "time_windows") {
            Some(ConfigCategory::TimeWindows)
        } else if str_equal(s, "limits") {
            Some(ConfigCategory::Limits)
        } else if str_equal(s, "network") {
            Some(ConfigCategory::Network)
        } else if str_equal(s, "security") {
            Some(ConfigCategory::Security)
        } else if str_equal(s, "other") {
            Some(ConfigCategory::Other)
        } else {
            None
        }
    }
}

/// Where a proposal stands in its life.
#[derive(Debug, Clone, Copy, PartialEq, Eq, Structural)]
pub enum ConfigChangeStatus {
    Pending,
    Approved,
    Rejected,
    Activated,
    Cancelled,
}

impl ConfigChangeStatus {
    /// The name under which the status is stored.
    pub open spec fn name(self) -> Seq<char> {
        match self {
            ConfigChangeStatus::Pending => "pending"@,
            ConfigChangeStatus::Approved => "approved"@,
            ConfigChangeStatus::Rejected => "rejected"@,
            ConfigChangeStatus::Activated => "activated"@,
            ConfigChangeStatus::Cancelled => "cancelled"@,
        }
    }

    /// The status stored under a name.
    pub open spec fn from_name(s: Seq<char>) -> Option<ConfigChangeStatus> {
        if s == "pending"@ {
            Some(ConfigChangeStatus::Pending)
        } else if s == "approved"@ {
            Some(ConfigChangeStatus::Approved)
        } else if s == "rejected"@ {
            Some(ConfigChangeStatus::Rejected)
        } else if s == "activated"@ {
            Some(ConfigChangeStatus::Activated)
        } else if s == "cancelled"@ {
            Some(ConfigChangeStatus::Cancelled)
        } else {
            None
        }
    }

    /// The name under which the status is stored. Reading the name back
    /// gives the status.
    pub fn as_str(&self) -> (s: &'static str)
        ensures
            s@ == self.name(),
            ConfigChangeStatus::from_name(s@) == Some(*self),
    {
        proof {
            reveal_strlit("pending");
            reveal_strlit("approved");
            reveal_strlit("rejected");
            reveal_strlit("activated");
            reveal_strlit("cancelled");
            assert("approved"@[0] == 'a' && "rejected"@[0] == 'r');
            assert("activated"@[0] == 'a' && "cancelled"@[0] == 'c');
        }
        match self {
            ConfigChangeStatus::Pending => "pending",
            ConfigChangeStatus::Approved => "approved",
            ConfigChangeStatus::Rejected => "rejected",
            ConfigChangeStatus::Activated => "activated",
            ConfigChangeStatus::Cancelled => "cancelled",
        }
    }

    /// The status stored under a name, nothing for an unknown name.
    pub fn from_str(s: &str) -> (c: Option<ConfigChangeStatus>)
        ensures
            c == ConfigChangeStatus::from_name(s@),
    {
        if str_equal(s, "pending") {
            Some(ConfigChangeStatus::Pending)
        } else if str_equal(s, "approved") {
            Some(ConfigChangeStatus::Approved)
        } else if str_equal(s, "rejected") {
            Some(ConfigChangeStatus::Rejected)
        } else if str_equal(s, "activated") {
            Some(ConfigChangeStatus::Activated)
        } else if str_equal(s, "cancelled") {
            Some(ConfigChangeStatus::Cancelled)
        } else {
            None
        }
    }
}


/// How a live value came to be changed.
#[derive(Debug, Clone, Copy, PartialEq, Eq, Structural)]
pub enum ActivationMethod {
    /// An approved proposal was activated.
    GovernanceApproved,
    /// The value was taken over from the file-based defaults.
    YamlSync,
}

impl ActivationMethod {
    /// The name under which the method is stored.
    pub open spec fn name(self) -> Seq<char> {
        match self {
            ActivationMethod::GovernanceApproved => "governance_approved"@,
            ActivationMethod::YamlSync => "yaml_sync"@,
        }
    }

    /// The name under which the method is stored.
    pub fn as_str(&self) -> (s: &'static str)
        ensures
            s@ == self.name(),
    {
        match self {
            ActivationMethod::GovernanceApproved => "governance_approved",
            ActivationMethod::YamlSync => "yaml_sync",
        }
    }
}

/// One governance parameter.
#[derive(Debug)]
pub struct ConfigEntry {
    pub id: i32,
    pub config_key: String,
    pub config_category: ConfigCategory,
    pub current_value: ConfigValue,
    pub default_value: ConfigValue,
    pub description: Option<String>,
    pub tier_requirement: i32,
    pub created_at: i64,
    pub updated_at: i64,
    pub created_by: Option<String>,
    pub notes: Option<String>,
}

/// A governance parameter as mathematical data.
pub struct ConfigEntryView {
    pub id: i32,
    pub config_key: Seq<char>,
    pub config_category: ConfigCategory,
    pub current_value: ConfigValueView,
    pub default_value: ConfigValueView,
    pub description: Option<Seq<char>>,
    pub tier_requirement: i32,
    pub created_at: i64,
    pub updated_at: i64,
    pub created_by: Option<Seq<char>>,
    pub notes: Option<Seq<char>>,
}

impl View for ConfigEntry {
    type V = ConfigEntryView;

    open spec fn view(&self) -> ConfigEntryView {
        ConfigEntryView {
            id: self.id,
            config_key: self.config_key@,
            config_category: self.config_category,
            current_value: self.current_value@,
            default_value: self.default_value@,
            description: opt_text(self.description),
            tier_requirement: self.tier_requirement,
            created_at: self.created_at,
            updated_at: self.updated_at,
            created_by: opt_text(self.created_by),
            notes: opt_text(self.notes),
        }
    }
}

impl ConfigEntry {
    /// A copy of the entry.
    pub fn duplicate(&self) -> (c: ConfigEntry)
        ensures
            c@ == self@,
    {
        ConfigEntry {
            id: self.id,
            config_key: self.config_key.clone(),
            config_category: self.config_category,
            current_value: self.current_value.duplicate(),
            default_value: self.default_value.duplicate(),
            description: copy_opt_text(&self.description),
            tier_requirement: self.tier_requirement,
            created_at: self.created_at,
            updated_at: self.updated_at,
            created_by: copy_opt_text(&self.created_by),
            notes: copy_opt_text(&self.notes),
        }
    }

    /// An entry as it is read back from the store. The category comes as
    /// its stored name, and each value as it was parsed, nothing where the
    /// stored text was no JSON. An unknown category and an unparsed value
    /// are configuration errors.
    pub fn from_stored(
        id: i32,
        config_key: &str,
        category: &str,
        current_value: Option<ConfigValue>,
        default_value: Option<ConfigValue>,
        description: Option<&str>,
        tier_requirement: i32,
        created_at: i64,
        updated_at: i64,
        created_by: Option<&str>,
        notes: Option<&str>,
    ) -> (result: Result<ConfigEntry, GovernanceError>)
        ensures
            match result {
                Ok(entry) => {
                    &&& ConfigCategory::from_name(category@) is Some
                    &&& current_value is Some
                    &&& default_value is Some
                    &&& entry@ == (ConfigEntryView {
                        id,
                        config_key: config_key@,
                        config_category: ConfigCategory::from_name(category@)->0,
                        current_value: current_value->0@,
                        default_value: default_value->0@,
                        description: opt_str(description),
                        tier_requirement,
                        created_at,
                        updated_at,
                        created_by: opt_str(created_by),
                        notes: opt_str(notes),
                    })
                },
                Err(e) => {
                    &&& e is ConfigError
                    &&& ConfigCategory::from_name(category@) is None || current_value is None
                        || default_value is None
                },
            },
    {
        let config_category = match ConfigCategory::from_str(category) {
            Some(c) => c,
            None => {
                return Err(config_error("Invalid category"));
            },
        };
        let current_value = match current_value {
            Some(v) => v,
            None => {
                return Err(config_error("Invalid JSON"));
            },
        };
        let default_value = match default_value {
            Some(v) => v,
            None => {
                return Err(config_error("Invalid JSON"));
            },
        };
        Ok(
            ConfigEntry {
                id,
                config_key: config_key.to_owned(),
                config_category,
                current_value,
                default_value,
                description: own_opt_str(description),
                tier_requirement,
                created_at,
                updated_at,
                created_by: own_opt_str(created_by),
                notes: own_opt_str(notes),
            },
        )
    }
}

/// A proposal to change a governance parameter.
#[derive(Debug)]
pub struct ConfigChange {
    pub id: i32,
    pub config_key: String,
    pub proposed_value: ConfigValue,
    /// The live value at the time of the proposal.
    pub current_value: ConfigValue,
    pub change_reason: Option<String>,
    pub proposed_by: String,
    pub proposed_at: i64,
    pub tier_requirement: i32,
    pub status: ConfigChangeStatus,
    pub approval_pr_id: Option<i32>,
    pub approved_at: Option<i64>,
    pub approved_by: Option<String>,
    pub activated_at: Option<i64>,
    pub activation_pr_id: Option<i32>,
    pub notes: Option<String>,
}

/// A proposal as mathematical data.
pub struct ConfigChangeView {
    pub id: i32,
    pub config_key: Seq<char>,
    pub proposed_value: ConfigValueView,
    pub current_value: ConfigValueView,
    pub change_reason: Option<Seq<char>>,
    pub proposed_by: Seq<char>,
    pub proposed_at: i64,
    pub tier_requirement: i32,
    pub status: ConfigChangeStatus,
    pub approval_pr_id: Option<i32>,
    pub approved_at: Option<i64>,
    pub approved_by: Option<Seq<char>>,
    pub activated_at: Option<i64>,
    pub activation_pr_id: Option<i32>,
    pub notes: Option<Seq<char>>,
}

impl View for ConfigChange {
    type V = ConfigChangeView;

    open spec fn view(&self) -> ConfigChangeView {
        ConfigChangeView {
            id: self.id,
            config_key: self.config_key@,
            proposed_value: self.proposed_value@,
            current_value: self.current_value@,
            change_reason: opt_text(self.change_reason),
            proposed_by: self.proposed_by@,
            proposed_at: self.proposed_at,
            tier_requirement: self.tier_requirement,
            status: self.status,
            approval_pr_id: self.approval_pr_id,
            approved_at: self.approved_at,
            approved_by: opt_text(self.approved_by),
            activated_at: self.activated_at,
            activation_pr_id: self.activation_pr_id,
            notes: opt_text(self.notes),
        }
    }
}

impl ConfigChange {
    /// A copy of the proposal.
    pub fn duplicate(&self) -> (c: ConfigChange)
        ensures
            c@ == self@,
    {
        ConfigChange {
            id: self.id,
            config_key: self.config_key.clone(),
            proposed_value: self.proposed_value.duplicate(),
            current_value: self.current_value.duplicate(),
            change_reason: copy_opt_text(&self.change_reason),
            proposed_by: self.proposed_by.clone(),
            proposed_at: self.proposed_at,
            tier_requirement: self.tier_requirement,
            status: self.status,
            approval_pr_id: self.approval_pr_id,
            approved_at: self.approved_at,
            approved_by: copy_opt_text(&self.approved_by),
            activated_at: self.activated_at,
            activation_pr_id: self.activation_pr_id,
            notes: copy_opt_text(&self.notes),
        }
    }
}

impl ConfigChange {
    /// A proposal as it is read back from the store. The status comes as
    /// its stored name, and each value as it was parsed, nothing where the
    /// stored text was no JSON. An unparsed value and an unknown status
    /// are configuration errors, looked for in this order.
    pub fn from_stored(
        id: i32,
        config_key: &str,
        proposed_value: Option<ConfigValue>,
        current_value: Option<ConfigValue>,
        change_reason: Option<&str>,
        proposed_by: &str,
        proposed_at: i64,
        tier_requirement: i32,
        status: &str,
        approval_pr_id: Option<i32>,
        approved_at: Option<i64>,
        approved_by: Option<&str>,
        activated_at: Option<i64>,
        activation_pr_id: Option<i32>,
        notes: Option<&str>,
    ) -> (result: Result<ConfigChange, GovernanceError>)
        ensures
            match result {
                Ok(change) => {
                    &&& proposed_value is Some
                    &&& current_value is Some
                    &&& ConfigChangeStatus::from_name(status@) is Some
                    &&& change@ == (ConfigChangeView {
                        id,
                        config_key: config_key@,
                        proposed_value: proposed_value->0@,
                        current_value: current_value->0@,
                        change_reason: opt_str(change_reason),
                        proposed_by: proposed_by@,
                        proposed_at,
                        tier_requirement,
                        status: ConfigChangeStatus::from_name(status@)->0,
                        approval_pr_id,
                        approved_at,
                        approved_by: opt_str(approved_by),
                        activated_at,
                        activation_pr_id,
                        notes: opt_str(notes),
                    })
                },
                Err(e) => {
                    &&& e is ConfigError
                    &&& if proposed_value is None || current_value is None {
                        e.text() == "Invalid JSON"@
                    } else {
                        ConfigChangeStatus::from_name(status@) is None && e.text()
                            == "Invalid status"@
                    }
                },
            },
    {
        let proposed_value = match proposed_value {
            Some(v) => v,
            None => {
                return Err(config_error("Invalid JSON"));
            },
        };
        let current_value = match current_value {
            Some(v) => v,
            None => {
                return Err(config_error("Invalid JSON"));
            },
        };
        let status = match ConfigChangeStatus::from_str(status) {
            Some(st) => st,
            None => {
                return Err(config_error("Invalid status"));
            },
        };
        Ok(
            ConfigChange {
                id,
                config_key: config_key.to_owned(),
                proposed_value,
                current_value,
                change_reason: own_opt_str(change_reason),
                proposed_by: proposed_by.to_owned(),
                proposed_at,
                tier_requirement,
                status,
                approval_pr_id,
                approved_at,
                approved_by: own_opt_str(approved_by),
                activated_at,
                activation_pr_id,
                notes: own_opt_str(notes),
            },
        )
    }
}

/// One record of a changed live value.
#[derive(Debug)]
pub struct ConfigHistoryEntry {
    pub config_key: String,
    pub old_value: ConfigValue,
    pub new_value: ConfigValue,
    pub changed_at: i64,
    pub changed_by: String,
    pub change_id: Option<i32>,
    pub activation_method: ActivationMethod,
}

/// A history record as mathematical data.
pub struct ConfigHistoryView {
    pub config_key: Seq<char>,
    pub old_value: ConfigValueView,
    pub new_value: ConfigValueView,
    pub changed_at: i64,
    pub changed_by: Seq<char>,
    pub change_id: Option<i32>,
    pub activation_method: ActivationMethod,
}

impl View for ConfigHistoryEntry {
    type V = ConfigHistoryView;

    open spec fn view(&self) -> ConfigHistoryView {
        ConfigHistoryView {
            config_key: self.config_key@,
            old_value: self.old_value@,
            new_value: self.new_value@,
            changed_at: self.changed_at,
            changed_by: self.changed_by@,
            change_id: self.change_id,
            activation_method: self.activation_method,
        }
    }
}

impl ConfigHistoryEntry {
    /// A copy of the record.
    pub fn duplicate(&self) -> (c: ConfigHistoryEntry)
        ensures
            c@ == self@,
    {
        ConfigHistoryEntry {
            config_key: self.config_key.clone(),
            old_value: self.old_value.duplicate(),
            new_value: self.new_value.duplicate(),
            changed_at: self.changed_at,
            changed_by: self.changed_by.clone(),
            change_id: self.change_id,
            activation_method: self.activation_method,
        }
    }
}

/// The tier that a parameter taken over from the file-based defaults
/// asks for.
pub const SYNCED_TIER_REQUIREMENT: i32 = 5;

/// The registry as mathematical data: the parameters in the order of
/// their registration, the proposals in the order of their making, and
/// the history in the order of the changes.
pub struct RegistryView {
    pub entries: Seq<ConfigEntryView>,
    pub changes: Seq<ConfigChangeView>,
    pub history: Seq<ConfigHistoryView>,
}

impl RegistryView {
    /// The parameter at position `i` has this key.
    pub open spec fn key_at(self, key: Seq<char>, i: int) -> bool {
        0 <= i < self.entries.len() && self.entries[i].config_key == key
    }

    /// A parameter with this key is registered.
    pub open spec fn has_key(self, key: Seq<char>) -> bool {
        exists|i: int| self.key_at(key, i)
    }

    /// The position of the parameter with this key.
    pub open spec fn index_of(self, key: Seq<char>) -> int {
        choose|i: int| self.key_at(key, i)
    }

    /// The live value of a parameter, nothing where the key is unknown.
    pub open spec fn current_value(self, key: Seq<char>) -> Option<ConfigValueView> {
        if self.has_key(key) {
            Some(self.entries[self.index_of(key)].current_value)
        } else {
            None
        }
    }

    /// A proposal with this number was made.
    pub open spec fn has_change(self, id: int) -> bool {
        1 <= id <= self.changes.len()
    }

    /// The proposal with this number.
    pub open spec fn change(self, id: int) -> ConfigChangeView {
        self.changes[id - 1]
    }

    /// The proposal with this number exists and has this status.
    pub open spec fn change_is(self, id: int, status: ConfigChangeStatus) -> bool {
        self.has_change(id) && self.change(id).status == status
    }

    /// A live value of this parameter was once set by an approved proposal.
    pub open spec fn governed(self, key: Seq<char>) -> bool {
        exists|i: int|
            0 <= i < self.history.len() && (#[trigger] self.history[i]).config_key == key
                && self.history[i].activation_method == ActivationMethod::GovernanceApproved
    }

    /// What holds of every registry: parameters and proposals are numbered
    /// from one in their order, no key is registered twice, and every
    /// proposal is about a registered key.
    pub open spec fn wf(self) -> bool {
        &&& self.entries.len() <= i32::MAX
        &&& self.changes.len() <= i32::MAX
        &&& forall|i: int| 0 <= i < self.entries.len() ==> (#[trigger] self.entries[i]).id == i + 1
        &&& forall|i: int, j: int|
            0 <= i < j < self.entries.len() ==> (#[trigger] self.entries[i]).config_key != (
            #[trigger] self.entries[j]).config_key
        &&& forall|i: int| 0 <= i < self.changes.len() ==> (#[trigger] self.changes[i]).id == i + 1
        &&& forall|i: int|
            0 <= i < self.changes.len() ==> self.has_key((#[trigger] self.changes[i]).config_key)
    }

    /// The registry with one more parameter, registered at `now` with its
    /// default as its live value.
    pub open spec fn register(
        self,
        key: Seq<char>,
        category: ConfigCategory,
        default_value: ConfigValueView,
        description: Option<Seq<char>>,
        tier_requirement: i32,
        created_by: Option<Seq<char>>,
        now: i64,
    ) -> RegistryView {
        RegistryView {
            entries: self.entries.push(
                ConfigEntryView {
                    id: (self.entries.len() + 1) as i32,
                    config_key: key,
                    config_category: category,
                    current_value: default_value,
                    default_value,
                    description,
                    tier_requirement,
                    created_at: now,
                    updated_at: now,
                    created_by,
                    notes: None,
                },
            ),
            ..self
        }
    }

    /// The registry with one more proposal, pending, about a registered
    /// key, holding the live value of that moment.
    pub open spec fn propose(
        self,
        key: Seq<char>,
        proposed_value: ConfigValueView,
        change_reason: Option<Seq<char>>,
        proposed_by: Seq<char>,
        now: i64,
    ) -> RegistryView {
        let entry = self.entries[self.index_of(key)];
        RegistryView {
            changes: self.changes.push(
                ConfigChangeView {
                    id: (self.changes.len() + 1) as i32,
                    config_key: key,
                    proposed_value,
                    current_value: entry.current_value,
                    change_reason,
                    proposed_by,
                    proposed_at: now,
                    tier_requirement: entry.tier_requirement,
                    status: ConfigChangeStatus::Pending,
                    approval_pr_id: None,
                    approved_at: None,
                    approved_by: None,
                    activated_at: None,
                    activation_pr_id: None,
                    notes: None,
                },
            ),
            ..self
        }
    }

    /// The registry with one proposal replaced.
    pub open spec fn with_change(self, id: int, change: ConfigChangeView) -> RegistryView {
        RegistryView { changes: self.changes.update(id - 1, change), ..self }
    }

    /// The registry after a pending proposal was approved.
    pub open spec fn approve(
        self,
        id: int,
        approval_pr_id: i32,
        approved_by: Seq<char>,
        now: i64,
    ) -> RegistryView {
        self.with_change(
            id,
            ConfigChangeView {
                status: ConfigChangeStatus::Approved,
                approval_pr_id: Some(approval_pr_id),
                approved_at: Some(now),
                approved_by: Some(approved_by),
                ..self.change(id)
            },
        )
    }

    /// The registry after a proposal was given another status and nothing
    /// else of it changed.
    pub open spec fn with_status(self, id: int, status: ConfigChangeStatus) -> RegistryView {
        self.with_change(id, ConfigChangeView { status, ..self.change(id) })
    }

    /// The registry after a proposal was linked to an approval reference.
    pub open spec fn link(self, id: int, pr_id: i32) -> RegistryView {
        self.with_change(id, ConfigChangeView { approval_pr_id: Some(pr_id), ..self.change(id) })
    }

    /// The registry after the live value of the parameter at a position
    /// was set.
    pub open spec fn with_value_at(self, i: int, value: ConfigValueView, now: i64)
        -> RegistryView {
        RegistryView {
            entries: self.entries.update(
                i,
                ConfigEntryView { current_value: value, updated_at: now, ..self.entries[i] },
            ),
            ..self
        }
    }

    /// The registry after the live value of a registered key was set.
    pub open spec fn with_value(self, key: Seq<char>, value: ConfigValueView, now: i64)
        -> RegistryView {
        self.with_value_at(self.index_of(key), value, now)
    }

    /// The registry with one more history record.
    pub open spec fn with_record(self, record: ConfigHistoryView) -> RegistryView {
        RegistryView { history: self.history.push(record), ..self }
    }

    /// The record that the activation of a proposal leaves.
    pub open spec fn activation_record(self, id: int, now: i64) -> ConfigHistoryView {
        let change = self.change(id);
        ConfigHistoryView {
            config_key: change.config_key,
            old_value: change.current_value,
            new_value: change.proposed_value,
            changed_at: now,
            changed_by: change.proposed_by,
            change_id: Some(id as i32),
            activation_method: ActivationMethod::GovernanceApproved,
        }
    }

    /// The registry after an approved proposal was activated: the live
    /// value is the proposed one, the proposal is activated, and the
    /// history has one more record.
    pub open spec fn activate(self, id: int, activation_pr_id: Option<i32>, now: i64)
        -> RegistryView {
        let change = self.change(id);
        self.with_value(change.config_key, change.proposed_value, now).with_change(
            id,
            ConfigChangeView {
                status: ConfigChangeStatus::Activated,
                activated_at: Some(now),
                activation_pr_id,
                ..change
            },
        ).with_record(self.activation_record(id, now))
    }
}

/// The name under which a take-over from the file-based defaults is
/// recorded.
pub open spec fn yaml_sync_name() -> Seq<char> {
    "yaml_sync"@
}

/// The category given to a parameter that the file-based defaults bring
/// in, read off its key.
pub open spec fn sync_category(key: Seq<char>) -> ConfigCategory {
    if contains_text(key, "tier_"@) || contains_text(key, "layer_"@) || contains_text(
        key,
        "veto_"@,
    ) {
        ConfigCategory::Thresholds
    } else if contains_text(key, "review_period"@) || contains_text(key, "duration"@)
        || contains_text(key, "period"@) {
        ConfigCategory::TimeWindows
    } else if contains_text(key, "max_"@) || contains_text(key, "min_"@) {
        ConfigCategory::Limits
    } else {
        ConfigCategory::Other
    }
}

/// The description given to a parameter that the file-based defaults
/// bring in.
pub open spec fn sync_description(key: Seq<char>) -> Seq<char> {
    "Synced from YAML: "@ + key
}

/// A list of keyed values as mathematical data.
pub open spec fn keyed_values(pairs: Seq<(String, ConfigValue)>) -> Seq<
    (Seq<char>, ConfigValueView),
> {
    pairs.map_values(|p: (String, ConfigValue)| (p.0@, p.1@))
}

/// `a` is listed before `b`: the category with the earlier name first,
/// and within a category the earlier key.
pub open spec fn entry_before(a: ConfigEntryView, b: ConfigEntryView) -> bool {
    a.config_category.rank() < b.config_category.rank() || (a.config_category.rank()
        == b.config_category.rank() && text_before(a.config_key, b.config_key))
}

/// Where a proposal stands in a listing by time: the time of its approval
/// or of its making, a missing time before every other.
pub open spec fn order_time(c: ConfigChangeView, by_approval: bool) -> int {
    if by_approval {
        match c.approved_at {
            Some(t) => t as int,
            None => i64::MIN - 1,
        }
    } else {
        c.proposed_at as int
    }
}

/// `a` is listed before `b`: the earlier time first, and of two with the
/// same time the one that was made first.
pub open spec fn listed_before(a: ConfigChangeView, b: ConfigChangeView, by_approval: bool)
    -> bool {
    order_time(a, by_approval) < order_time(b, by_approval) || (order_time(a, by_approval)
        == order_time(b, by_approval) && a.id < b.id)
}

impl RegistryView {
    /// No key is registered twice.
    pub open spec fn keys_unique(self) -> bool {
        forall|i: int, j: int|
            0 <= i < j < self.entries.len() ==> (#[trigger] self.entries[i]).config_key != (
            #[trigger] self.entries[j]).config_key
    }

    /// The record that a take-over from the file-based defaults leaves.
    pub open spec fn sync_record(self, key: Seq<char>, value: ConfigValueView, now: i64)
        -> ConfigHistoryView {
        ConfigHistoryView {
            config_key: key,
            old_value: self.entries[self.index_of(key)].current_value,
            new_value: value,
            changed_at: now,
            changed_by: yaml_sync_name(),
            change_id: None,
            activation_method: ActivationMethod::YamlSync,
        }
    }

    /// Whether a value from the file-based defaults is taken over: an
    /// unknown key is registered, and a known key gets the value where it
    /// differs from the live one and no approved proposal ever set it.
    pub open spec fn sync_applies(self, key: Seq<char>, value: ConfigValueView) -> bool {
        if self.has_key(key) {
            self.entries[self.index_of(key)].current_value != value && !self.governed(key)
        } else {
            true
        }
    }

    /// The registry cannot take another parameter in, and the key is new.
    pub open spec fn sync_blocked(self, key: Seq<char>) -> bool {
        !self.has_key(key) && self.entries.len() >= i32::MAX
    }

    /// The registry after one value from the file-based defaults was
    /// looked at.
    pub open spec fn sync_one(self, key: Seq<char>, value: ConfigValueView, now: i64)
        -> RegistryView {
        if !self.sync_applies(key, value) {
            self
        } else if self.has_key(key) {
            self.with_value(key, value, now).with_record(self.sync_record(key, value, now))
        } else {
            self.register(
                key,
                sync_category(key),
                value,
                Some(sync_description(key)),
                SYNCED_TIER_REQUIREMENT,
                Some(yaml_sync_name()),
                now,
            )
        }
    }

    /// The registry after the values from the file-based defaults were
    /// looked at one after the other.
    pub open spec fn sync_all(self, yaml: Seq<(Seq<char>, ConfigValueView)>, now: i64)
        -> RegistryView
        decreases yaml.len(),
    {
        if yaml.len() == 0 {
            self
        } else {
            self.sync_all(yaml.drop_last(), now).sync_one(yaml.last().0, yaml.last().1, now)
        }
    }

    /// How many of the values from the file-based defaults were taken over.
    pub open spec fn sync_count(self, yaml: Seq<(Seq<char>, ConfigValueView)>, now: i64) -> nat
        decreases yaml.len(),
    {
        if yaml.len() == 0 {
            0
        } else {
            let earlier = self.sync_count(yaml.drop_last(), now);
            if self.sync_all(yaml.drop_last(), now).sync_applies(yaml.last().0, yaml.last().1) {
                earlier + 1
            } else {
                earlier
            }
        }
    }

    /// The take-over stops at position `n`: the key there is new and the
    /// registry is full.
    pub open spec fn sync_stops_at(self, yaml: Seq<(Seq<char>, ConfigValueView)>, now: i64, n: int)
        -> bool {
        0 <= n < yaml.len() && self.sync_all(yaml.take(n), now).sync_blocked(yaml[n].0)
    }

    /// The proposal is approved and linked to this approval reference.
    pub open spec fn pr_ready(self, id: int, pr_id: i32) -> bool {
        self.change_is(id, ConfigChangeStatus::Approved) && self.change(id).approval_pr_id
            == Some(pr_id)
    }

    /// The registry after the first `n` proposals were looked at and those
    /// approved under this reference were activated.
    pub open spec fn process_pr(self, pr_id: i32, n: int, now: i64) -> RegistryView
        decreases n,
    {
        if n <= 0 {
            self
        } else {
            let earlier = self.process_pr(pr_id, n - 1, now);
            if self.pr_ready(n, pr_id) {
                earlier.activate(n, Some(pr_id), now)
            } else {
                earlier
            }
        }
    }

    /// The keys of those among the first `n` proposals that are approved
    /// under this reference, in the order of the proposals.
    pub open spec fn pr_keys(self, pr_id: i32, n: int) -> Seq<Seq<char>>
        decreases n,
    {
        if n <= 0 {
            Seq::empty()
        } else {
            let earlier = self.pr_keys(pr_id, n - 1);
            if self.pr_ready(n, pr_id) {
                earlier.push(self.change(n).config_key)
            } else {
                earlier
            }
        }
    }

    /// The value that the first `n` proposals give a key under this
    /// approval reference: the proposed value of the last among them that
    /// is approved under the reference and is about the key. Nothing
    /// where none of them is.
    pub open spec fn pr_value(self, pr_id: i32, n: int, key: Seq<char>) -> Option<ConfigValueView>
        decreases n,
    {
        if n <= 0 {
            None
        } else if self.pr_ready(n, pr_id) && self.change(n).config_key == key {
            Some(self.change(n).proposed_value)
        } else {
            self.pr_value(pr_id, n - 1, key)
        }
    }

    /// `listed` holds exactly the first `n` parameters, by category and
    /// within a category by key.
    pub open spec fn configs_upto(self, listed: Seq<ConfigEntryView>, n: int) -> bool {
        &&& forall|j: int|
            0 <= j < listed.len() ==> 1 <= (#[trigger] listed[j]).id <= n && self.entries[listed[j].id
                - 1] == listed[j]
        &&& forall|i: int| 0 <= i < n ==> listed.contains(#[trigger] self.entries[i])
        &&& forall|a: int, b: int|
            0 <= a < b < listed.len() ==> entry_before(#[trigger] listed[a], #[trigger] listed[b])
    }

    /// `listed` holds exactly those among the first `n` proposals that
    /// have this status, the earliest first.
    pub open spec fn listed_upto(
        self,
        listed: Seq<ConfigChangeView>,
        status: ConfigChangeStatus,
        by_approval: bool,
        n: int,
    ) -> bool {
        &&& forall|j: int|
            0 <= j < listed.len() ==> self.change_is((#[trigger] listed[j]).id as int, status)
                && self.change(listed[j].id as int) == listed[j] && listed[j].id <= n
        &&& forall|id: int|
            1 <= id <= n && self.change_is(id, status) ==> listed.contains(
                #[trigger] self.change(id),
            )
        &&& forall|a: int, b: int|
            0 <= a < b < listed.len() ==> listed_before(
                #[trigger] listed[a],
                #[trigger] listed[b],
                by_approval,
            )
    }

    /// `listed` holds exactly the proposals with this status, the earliest
    /// first.
    pub open spec fn lists_in_order(
        self,
        listed: Seq<ConfigChangeView>,
        status: ConfigChangeStatus,
        by_approval: bool,
    ) -> bool {
        self.listed_upto(listed, status, by_approval, self.changes.len() as int)
    }
}

/// The three lists of a registry.
struct RegistryState {
    entries: Vec<ConfigEntry>,
    changes: Vec<ConfigChange>,
    history: Vec<ConfigHistoryEntry>,
}

impl View for RegistryState {
    type V = RegistryView;

    closed spec fn view(&self) -> RegistryView {
        RegistryView {
            entries: self.entries@.map_values(|e: ConfigEntry| e@),
            changes: self.changes@.map_values(|c: ConfigChange| c@),
            history: self.history@.map_values(|h: ConfigHistoryEntry| h@),
        }
    }
}

impl RegistryState {
    fn find_entry(&self, key: &str) -> (at: Option<usize>)
        requires
            self@.keys_unique(),
        ensures
            match at {
                Some(i) => self@.key_at(key@, i as int) && self@.index_of(key@) == i,
                None => !self@.has_key(key@),
            },
    {
        let wanted = key.to_owned();
        let mut i: usize = 0;
        while i < self.entries.len()
            invariant
                i <= self.entries@.len(),
                wanted@ == key@,
                self@.keys_unique(),
                forall|k: int| 0 <= k < i ==> !self@.key_at(key@, k),
            decreases self.entries@.len() - i,
        {
            if self.entries[i].config_key == wanted {
                proof {
                    lemma_index_of(self@, key@, i as int);
                }
                return Some(i);
            }
            i = i + 1;
        }
        None
    }

    fn set_value(&mut self, i: usize, value: ConfigValue, now: i64)
        requires
            i < old(self)@.entries.len(),
        ensures
            final(self)@ == old(self)@.with_value_at(i as int, value@, now),
    {
        let mut entry = self.entries[i].duplicate();
        entry.current_value = value;
        entry.updated_at = now;
        let ghost target = self@.with_value_at(i as int, value@, now);
        self.entries.set(i, entry);
        assert(self@.entries =~= target.entries);
    }

    fn set_change(&mut self, idx: usize, change: ConfigChange)
        requires
            idx < old(self)@.changes.len(),
        ensures
            final(self)@ == old(self)@.with_change(idx + 1, change@),
    {
        let ghost target = self@.with_change(idx + 1, change@);
        self.changes.set(idx, change);
        assert(self@.changes =~= target.changes);
    }

    fn push_record(&mut self, record: ConfigHistoryEntry)
        ensures
            final(self)@ == old(self)@.with_record(record@),
    {
        let ghost target = self@.with_record(record@);
        self.history.push(record);
        assert(self@.history =~= target.history);
    }

    fn well_formed(&self) -> (yes: bool)
        ensures
            yes == self@.wf(),
    {
        let n = self.entries.len();
        let m = self.changes.len();
        if n > 0x7fff_ffff || m > 0x7fff_ffff {
            return false;
        }
        let mut i: usize = 0;
        while i < n
            invariant
                i <= n,
                n == self.entries@.len(),
                n <= i32::MAX,
                forall|k: int| 0 <= k < i ==> (#[trigger] self@.entries[k]).id == k + 1,
                forall|a: int, b: int|
                    0 <= a < b < i ==> (#[trigger] self@.entries[a]).config_key != (
                    #[trigger] self@.entries[b]).config_key,
            decreases n - i,
        {
            if self.entries[i].id != (i + 1) as i32 {
                return false;
            }
            let mut j: usize = 0;
            while j < i
                invariant
                    j <= i,
                    i < n,
                    n == self.entries@.len(),
                    forall|a: int|
                        0 <= a < j ==> (#[trigger] self@.entries[a]).config_key
                            != self@.entries[i as int].config_key,
                decreases i - j,
            {
                assert(self@.entries[j as int] == self.entries@[j as int]@);
                if self.entries[j].config_key == self.entries[i].config_key {
                    return false;
                }
                j = j + 1;
            }
            i = i + 1;
        }
        let mut c: usize = 0;
        while c < m
            invariant
                c <= m,
                m == self.changes@.len(),
                m <= i32::MAX,
                self@.keys_unique(),
                forall|k: int| 0 <= k < c ==> (#[trigger] self@.changes[k]).id == k + 1,
                forall|k: int|
                    0 <= k < c ==> self@.has_key((#[trigger] self@.changes[k]).config_key),
            decreases m - c,
        {
            assert(self@.changes[c as int] == self.changes@[c as int]@);
            if self.changes[c].id != (c + 1) as i32 {
                return false;
            }
            if self.find_entry(self.changes[c].config_key.as_str()).is_none() {
                return false;
            }
            c = c + 1;
        }
        true
    }

    fn empty() -> (state: RegistryState)
        ensures
            state@.entries.len() == 0,
            state@.changes.len() == 0,
            state@.history.len() == 0,
            state@.wf(),
    {
        RegistryState { entries: Vec::new(), changes: Vec::new(), history: Vec::new() }
    }
}

/// The registry of governance parameters.
pub struct ConfigRegistry {
    state: RegistryState,
    config_path: Option<String>,
}

impl View for ConfigRegistry {
    type V = RegistryView;

    closed spec fn view(&self) -> RegistryView {
        self.state@
    }
}

impl ConfigRegistry {
    #[verifier::type_invariant]
    pub closed spec fn inv(&self) -> bool {
        self@.wf()
    }

    /// The directory of the file-based defaults, where one was set.
    pub closed spec fn spec_config_path(&self) -> Option<Seq<char>> {
        opt_text(self.config_path)
    }

    /// Tells that the registry is well formed.
    pub fn check_wf(&self)
        ensures
            self@.wf(),
    {
        proof {
            use_type_invariant(self);
        }
    }

    /// An empty registry.
    pub fn new() -> (registry: ConfigRegistry)
        ensures
            registry@.entries.len() == 0,
            registry@.changes.len() == 0,
            registry@.history.len() == 0,
            registry@.wf(),
            registry.spec_config_path() is None,
    {
        ConfigRegistry { state: RegistryState::empty(), config_path: None }
    }

    /// A registry made of what was read back from the store. What was
    /// read must be what a registry can hold: parameters and proposals
    /// numbered from one in their order, no key twice, and every proposal
    /// about a registered key. Anything else is a configuration error.
    pub fn restore(
        entries: Vec<ConfigEntry>,
        changes: Vec<ConfigChange>,
        history: Vec<ConfigHistoryEntry>,
    ) -> (result: Result<ConfigRegistry, GovernanceError>)
        ensures
            match result {
                Ok(registry) => {
                    &&& registry@.wf()
                    &&& registry@.entries == entries@.map_values(|e: ConfigEntry| e@)
                    &&& registry@.changes == changes@.map_values(|c: ConfigChange| c@)
                    &&& registry@.history == history@.map_values(|h: ConfigHistoryEntry| h@)
                    &&& registry.spec_config_path() is None
                },
                Err(e) => e is ConfigError && !(RegistryView {
                    entries: entries@.map_values(|e: ConfigEntry| e@),
                    changes: changes@.map_values(|c: ConfigChange| c@),
                    history: history@.map_values(|h: ConfigHistoryEntry| h@),
                }).wf(),
            },
    {
        let state = RegistryState { entries, changes, history };
        if state.well_formed() {
            Ok(ConfigRegistry { state, config_path: None })
        } else {
            Err(config_error("Stored registry is inconsistent"))
        }
    }

    /// Sets the directory of the file-based defaults.
    pub fn set_config_path(&mut self, config_path: String)
        ensures
            final(self)@ == old(self)@,
            final(self).spec_config_path() == Some(config_path@),
    {
        proof {
            use_type_invariant(&*self);
        }
        self.config_path = Some(config_path);
    }

    /// The directory of the file-based defaults, where one was set.
    pub fn config_path(&self) -> (path: Option<String>)
        ensures
            opt_text(path) == self.spec_config_path(),
    {
        copy_opt_text(&self.config_path)
    }

    fn find_entry(&self, key: &str) -> (at: Option<usize>)
        ensures
            match at {
                Some(i) => self@.key_at(key@, i as int) && self@.index_of(key@) == i,
                None => !self@.has_key(key@),
            },
    {
        proof {
            use_type_invariant(self);
        }
        self.state.find_entry(key)
    }

    fn locate_change(&self, change_id: i32) -> (at: Option<usize>)
        ensures
            match at {
                Some(idx) => self@.has_change(change_id as int) && idx == change_id - 1,
                None => !self@.has_change(change_id as int),
            },
    {
        if change_id >= 1 && (change_id as usize) <= self.state.changes.len() {
            Some((change_id - 1) as usize)
        } else {
            None
        }
    }

    fn replace_change(&mut self, idx: usize, change: ConfigChange)
        requires
            old(self)@.has_change(idx + 1),
            change@.id == idx + 1,
            change@.config_key == old(self)@.change(idx + 1).config_key,
        ensures
            final(self)@ == old(self)@.with_change(idx + 1, change@),
            final(self)@.wf(),
            final(self).spec_config_path() == old(self).spec_config_path(),
    {
        proof {
            use_type_invariant(&*self);
            lemma_with_change_wf(self@, idx + 1, change@);
        }
        let mut state = RegistryState::empty();
        core::mem::swap(&mut state, &mut self.state);
        state.set_change(idx, change);
        self.state = state;
    }

    /// Registers a new parameter, with its default as its live value.
    /// A key can be registered once: a second registration is refused and
    /// changes nothing.
    pub fn register_config(
        &mut self,
        config_key: &str,
        category: ConfigCategory,
        default_value: ConfigValue,
        description: Option<&str>,
        tier_requirement: i32,
        created_by: Option<&str>,
        now: i64,
    ) -> (result: Result<i32, GovernanceError>)
        ensures
            final(self)@.wf(),
            final(self).spec_config_path() == old(self).spec_config_path(),
            match result {
                Ok(id) => {
                    &&& !old(self)@.has_key(config_key@)
                    &&& id == old(self)@.entries.len() + 1
                    &&& final(self)@ == old(self)@.register(
                        config_key@,
                        category,
                        default_value@,
                        opt_str(description),
                        tier_requirement,
                        opt_str(created_by),
                        now,
                    )
                },
                Err(e) => {
                    &&& e is DatabaseError
                    &&& old(self)@.has_key(config_key@) || old(self)@.entries.len() == i32::MAX
                    &&& final(self)@ == old(self)@
                },
            },
    {
        proof {
            use_type_invariant(&*self);
        }
        if self.find_entry(config_key).is_some() {
            return Err(database_error("Failed to register config: key is already registered"));
        }
        if self.state.entries.len() >= 0x7fff_ffff {
            return Err(database_error("Failed to register config: registry is full"));
        }
        let id: i32 = (self.state.entries.len() + 1) as i32;
        let ghost before = self@;
        let current_value = default_value.duplicate();
        let entry = ConfigEntry {
            id,
            config_key: config_key.to_owned(),
            config_category: category,
            current_value,
            default_value,
            description: own_opt_str(description),
            tier_requirement,
            created_at: now,
            updated_at: now,
            created_by: own_opt_str(created_by),
            notes: None,
        };
        let mut state = RegistryState::empty();
        core::mem::swap(&mut state, &mut self.state);
        proof {
            let after = before.register(
                config_key@,
                category,
                default_value@,
                opt_str(description),
                tier_requirement,
                opt_str(created_by),
                now,
            );
            assert(state.entries@.push(entry).map_values(|e: ConfigEntry| e@) =~= after.entries);
            lemma_register_wf(
                before,
                config_key@,
                category,
                default_value@,
                opt_str(description),
                tier_requirement,
                opt_str(created_by),
                now,
            );
        }
        state.entries.push(entry);
        self.state = state;
        Ok(id)
    }

    /// The parameter registered under a key, nothing where the key is
    /// unknown.
    pub fn get_config(&self, config_key: &str) -> (result: Result<
        Option<ConfigEntry>,
        GovernanceError,
    >)
        ensures
            match result {
                Ok(Some(entry)) => self@.has_key(config_key@) && entry@
                    == self@.entries[self@.index_of(config_key@)],
                Ok(None) => !self@.has_key(config_key@),
                Err(_) => false,
            },
    {
        match self.find_entry(config_key) {
            Some(i) => Ok(Some(self.state.entries[i].duplicate())),
            None => Ok(None),
        }
    }

    /// The live value of a parameter, nothing where the key is unknown.
    pub fn get_current_value(&self, config_key: &str) -> (result: Result<
        Option<ConfigValue>,
        GovernanceError,
    >)
        ensures
            match result {
                Ok(Some(value)) => self@.current_value(config_key@) == Some(value@),
                Ok(None) => self@.current_value(config_key@) is None,
                Err(_) => false,
            },
    {
        match self.find_entry(config_key) {
            Some(i) => Ok(Some(self.state.entries[i].current_value.duplicate())),
            None => Ok(None),
        }
    }

    /// Number of registered parameters.
    pub fn config_count(&self) -> (n: usize)
        ensures
            n == self@.entries.len(),
    {
        self.state.entries.len()
    }

    /// Number of proposals made.
    pub fn change_count(&self) -> (n: usize)
        ensures
            n == self@.changes.len(),
    {
        self.state.changes.len()
    }

    /// The history, oldest record first.
    pub fn get_history(&self) -> (records: Vec<ConfigHistoryEntry>)
        ensures
            records@.map_values(|h: ConfigHistoryEntry| h@) == self@.history,
    {
        let mut records: Vec<ConfigHistoryEntry> = Vec::new();
        let mut i: usize = 0;
        while i < self.state.history.len()
            invariant
                i <= self.state.history@.len(),
                records@.len() == i,
                forall|k: int| 0 <= k < i ==> (#[trigger] records@[k])@ == self.state.history@[k]@,
            decreases self.state.history@.len() - i,
        {
            records.push(self.state.history[i].duplicate());
            i = i + 1;
        }
        records
    }

    /// Whether a live value of this parameter was once set by an approved
    /// proposal.
    pub fn has_governance_history(&self, config_key: &str) -> (governed: bool)
        ensures
            governed == self@.governed(config_key@),
    {
        let wanted = config_key.to_owned();
        let mut i: usize = 0;
        while i < self.state.history.len()
            invariant
                i <= self.state.history@.len(),
                wanted@ == config_key@,
                forall|k: int|
                    0 <= k < i ==> !((#[trigger] self@.history[k]).config_key == config_key@
                        && self@.history[k].activation_method
                        == ActivationMethod::GovernanceApproved),
            decreases self.state.history@.len() - i,
        {
            if self.state.history[i].config_key == wanted && self.state.history[i].activation_method
                == ActivationMethod::GovernanceApproved {
                assert(self@.history[i as int].config_key == config_key@);
                return true;
            }
            i = i + 1;
        }
        false
    }

    /// Proposes a new value for a registered parameter. The proposal is
    /// born pending and keeps the live value of this moment. An unknown
    /// key is a configuration error.
    pub fn propose_change(
        &mut self,
        config_key: &str,
        proposed_value: ConfigValue,
        change_reason: Option<&str>,
        proposed_by: &str,
        now: i64,
    ) -> (result: Result<i32, GovernanceError>)
        ensures
            final(self)@.wf(),
            final(self).spec_config_path() == old(self).spec_config_path(),
            match result {
                Ok(id) => {
                    &&& old(self)@.has_key(config_key@)
                    &&& id == old(self)@.changes.len() + 1
                    &&& final(self)@ == old(self)@.propose(
                        config_key@,
                        proposed_value@,
                        opt_str(change_reason),
                        proposed_by@,
                        now,
                    )
                },
                Err(e) => {
                    &&& final(self)@ == old(self)@
                    &&& if old(self)@.has_key(config_key@) {
                        e is DatabaseError && old(self)@.changes.len() == i32::MAX
                    } else {
                        e is ConfigError
                    }
                },
            },
    {
        proof {
            use_type_invariant(&*self);
        }
        let at = match self.find_entry(config_key) {
            Some(i) => i,
            None => {
                return Err(config_error("Config key not found"));
            },
        };
        if self.state.changes.len() >= 0x7fff_ffff {
            return Err(database_error("Failed to propose change: registry is full"));
        }
        let id: i32 = (self.state.changes.len() + 1) as i32;
        let change = ConfigChange {
            id,
            config_key: config_key.to_owned(),
            proposed_value,
            current_value: self.state.entries[at].current_value.duplicate(),
            change_reason: own_opt_str(change_reason),
            proposed_by: proposed_by.to_owned(),
            proposed_at: now,
            tier_requirement: self.state.entries[at].tier_requirement,
            status: ConfigChangeStatus::Pending,
            approval_pr_id: None,
            approved_at: None,
            approved_by: None,
            activated_at: None,
            activation_pr_id: None,
            notes: None,
        };
        let ghost before = self@;
        let ghost after = before.propose(
            config_key@,
            proposed_value@,
            opt_str(change_reason),
            proposed_by@,
            now,
        );
        let mut state = RegistryState::empty();
        core::mem::swap(&mut state, &mut self.state);
        state.changes.push(change);
        proof {
            assert(state@.changes =~= after.changes);
            assert forall|i: int| 0 <= i < after.changes.len() implies after.has_key(
                (#[trigger] after.changes[i]).config_key,
            ) by {
                let k = after.changes[i].config_key;
                assert(after.key_at(k, before.index_of(k)));
            }
        }
        self.state = state;
        Ok(id)
    }

    /// The proposal with a number, nothing where no such proposal was
    /// made.
    pub fn get_change(&self, change_id: i32) -> (result: Result<
        Option<ConfigChange>,
        GovernanceError,
    >)
        ensures
            match result {
                Ok(Some(change)) => self@.has_change(change_id as int) && change@ == self@.change(
                    change_id as int,
                ),
                Ok(None) => !self@.has_change(change_id as int),
                Err(_) => false,
            },
    {
        match self.locate_change(change_id) {
            Some(idx) => Ok(Some(self.state.changes[idx].duplicate())),
            None => Ok(None),
        }
    }

    /// Approves a pending proposal. Any other proposal, and an unknown
    /// number, is refused and changes nothing.
    pub fn approve_change(
        &mut self,
        change_id: i32,
        approval_pr_id: i32,
        approved_by: &str,
        now: i64,
    ) -> (result: Result<(), GovernanceError>)
        ensures
            final(self)@.wf(),
            final(self).spec_config_path() == old(self).spec_config_path(),
            match result {
                Ok(_) => {
                    &&& old(self)@.change_is(change_id as int, ConfigChangeStatus::Pending)
                    &&& final(self)@ == old(self)@.approve(
                        change_id as int,
                        approval_pr_id,
                        approved_by@,
                        now,
                    )
                },
                Err(e) => {
                    &&& e is ConfigError
                    &&& !old(self)@.change_is(change_id as int, ConfigChangeStatus::Pending)
                    &&& final(self)@ == old(self)@
                },
            },
    {
        proof {
            use_type_invariant(&*self);
        }
        let idx = match self.locate_change(change_id) {
            Some(idx) => idx,
            None => {
                return Err(config_error("Change not found"));
            },
        };
        if self.state.changes[idx].status != ConfigChangeStatus::Pending {
            return Err(config_error("Change is not pending"));
        }
        let mut change = self.state.changes[idx].duplicate();
        change.status = ConfigChangeStatus::Approved;
        change.approval_pr_id = Some(approval_pr_id);
        change.approved_at = Some(now);
        change.approved_by = Some(approved_by.to_owned());
        self.replace_change(idx, change);
        Ok(())
    }

    /// Rejects a pending proposal. Any other proposal, and an unknown
    /// number, is refused and changes nothing.
    pub fn reject_change(&mut self, change_id: i32) -> (result: Result<(), GovernanceError>)
        ensures
            final(self)@.wf(),
            final(self).spec_config_path() == old(self).spec_config_path(),
            match result {
                Ok(_) => {
                    &&& old(self)@.change_is(change_id as int, ConfigChangeStatus::Pending)
                    &&& final(self)@ == old(self)@.with_status(
                        change_id as int,
                        ConfigChangeStatus::Rejected,
                    )
                },
                Err(e) => {
                    &&& e is ConfigError
                    &&& !old(self)@.change_is(change_id as int, ConfigChangeStatus::Pending)
                    &&& final(self)@ == old(self)@
                },
            },
    {
        proof {
            use_type_invariant(&*self);
        }
        let idx = match self.locate_change(change_id) {
            Some(idx) => idx,
            None => {
                return Err(config_error("Change not found"));
            },
        };
        if self.state.changes[idx].status != ConfigChangeStatus::Pending {
            return Err(config_error("Change is not pending"));
        }
        let mut change = self.state.changes[idx].duplicate();
        change.status = ConfigChangeStatus::Rejected;
        self.replace_change(idx, change);
        Ok(())
    }

    /// Cancels a proposal that is pending or approved. Any other proposal,
    /// and an unknown number, is refused and changes nothing.
    pub fn cancel_change(&mut self, change_id: i32) -> (result: Result<(), GovernanceError>)
        ensures
            final(self)@.wf(),
            final(self).spec_config_path() == old(self).spec_config_path(),
            match result {
                Ok(_) => {
                    &&& old(self)@.change_is(change_id as int, ConfigChangeStatus::Pending)
                        || old(self)@.change_is(change_id as int, ConfigChangeStatus::Approved)
                    &&& final(self)@ == old(self)@.with_status(
                        change_id as int,
                        ConfigChangeStatus::Cancelled,
                    )
                },
                Err(e) => {
                    &&& e is ConfigError
                    &&& !old(self)@.change_is(change_id as int, ConfigChangeStatus::Pending)
                    &&& !old(self)@.change_is(change_id as int, ConfigChangeStatus::Approved)
                    &&& final(self)@ == old(self)@
                },
            },
    {
        proof {
            use_type_invariant(&*self);
        }
        let idx = match self.locate_change(change_id) {
            Some(idx) => idx,
            None => {
                return Err(config_error("Change not found"));
            },
        };
        let status = self.state.changes[idx].status;
        if status != ConfigChangeStatus::Pending && status != ConfigChangeStatus::Approved {
            return Err(config_error("Change can no longer be cancelled"));
        }
        let mut change = self.state.changes[idx].duplicate();
        change.status = ConfigChangeStatus::Cancelled;
        self.replace_change(idx, change);
        Ok(())
    }

    /// Links a pending proposal to its approval reference. Any other
    /// proposal, and an unknown number, is left as it is.
    pub fn link_change_to_pr(&mut self, change_id: i32, pr_id: i32) -> (result: Result<
        (),
        GovernanceError,
    >)
        ensures
            final(self)@.wf(),
            final(self).spec_config_path() == old(self).spec_config_path(),
            result is Ok,
            final(self)@ == if old(self)@.change_is(change_id as int, ConfigChangeStatus::Pending) {
                old(self)@.link(change_id as int, pr_id)
            } else {
                old(self)@
            },
    {
        proof {
            use_type_invariant(&*self);
        }
        match self.locate_change(change_id) {
            Some(idx) => {
                if self.state.changes[idx].status == ConfigChangeStatus::Pending {
                    let mut change = self.state.changes[idx].duplicate();
                    change.approval_pr_id = Some(pr_id);
                    self.replace_change(idx, change);
                }
            },
            None => {},
        }
        Ok(())
    }

    /// Activates an approved proposal: the live value becomes the proposed
    /// one, the proposal becomes activated, and the history gets one more
    /// record. Any other proposal, and an unknown number, is refused and
    /// changes nothing. Returns the key of the changed parameter.
    pub fn activate_change(&mut self, change_id: i32, activation_pr_id: Option<i32>, now: i64)
        -> (result: Result<String, GovernanceError>)
        ensures
            final(self)@.wf(),
            final(self).spec_config_path() == old(self).spec_config_path(),
            match result {
                Ok(key) => {
                    &&& old(self)@.change_is(change_id as int, ConfigChangeStatus::Approved)
                    &&& key@ == old(self)@.change(change_id as int).config_key
                    &&& final(self)@ == old(self)@.activate(
                        change_id as int,
                        activation_pr_id,
                        now,
                    )
                    &&& final(self)@.current_value(key@) == Some(
                        old(self)@.change(change_id as int).proposed_value,
                    )
                    &&& final(self)@.history == old(self)@.history.push(
                        old(self)@.activation_record(change_id as int, now),
                    )
                    &&& final(self)@.governed(key@)
                },
                Err(e) => {
                    &&& e is ConfigError
                    &&& !old(self)@.change_is(change_id as int, ConfigChangeStatus::Approved)
                    &&& final(self)@ == old(self)@
                },
            },
    {
        proof {
            use_type_invariant(&*self);
        }
        let idx = match self.locate_change(change_id) {
            Some(idx) => idx,
            None => {
                return Err(config_error("Change not found"));
            },
        };
        if self.state.changes[idx].status != ConfigChangeStatus::Approved {
            return Err(config_error("Change is not approved"));
        }
        let ghost before = self@;
        let mut change = self.state.changes[idx].duplicate();
        let config_key = change.config_key.clone();
        let at = match self.find_entry(config_key.as_str()) {
            Some(i) => i,
            None => {
                return Err(config_error("Config key not found"));
            },
        };
        let record = ConfigHistoryEntry {
            config_key: change.config_key.clone(),
            old_value: change.current_value.duplicate(),
            new_value: change.proposed_value.duplicate(),
            changed_at: now,
            changed_by: change.proposed_by.clone(),
            change_id: Some(change_id),
            activation_method: ActivationMethod::GovernanceApproved,
        };
        let value = change.proposed_value.duplicate();
        change.status = ConfigChangeStatus::Activated;
        change.activated_at = Some(now);
        change.activation_pr_id = activation_pr_id;
        proof {
            lemma_activate(before, change_id as int, activation_pr_id, now);
        }
        let mut state = RegistryState::empty();
        core::mem::swap(&mut state, &mut self.state);
        state.set_value(at, value, now);
        state.set_change(idx, change);
        state.push_record(record);
        self.state = state;
        Ok(config_key)
    }

    /// Activates every approved proposal that is linked to an approval
    /// reference, in the order in which the proposals were made. Returns
    /// the keys of the changed parameters in that order.
    pub fn process_pr_config_changes(&mut self, pr_id: i32, pr_body: &str, now: i64) -> (result:
        Result<Vec<String>, GovernanceError>)
        ensures
            final(self)@.wf(),
            final(self).spec_config_path() == old(self).spec_config_path(),
            match result {
                Ok(keys) => {
                    &&& final(self)@ == old(self)@.process_pr(
                        pr_id,
                        old(self)@.changes.len() as int,
                        now,
                    )
                    &&& keys@.map_values(|k: String| k@) == old(self)@.pr_keys(
                        pr_id,
                        old(self)@.changes.len() as int,
                    )
                },
                Err(_) => false,
            },
    {
        proof {
            use_type_invariant(&*self);
        }
        let ghost before = self@;
        let total: usize = self.state.changes.len();
        let mut keys: Vec<String> = Vec::new();
        let mut i: usize = 0;
        while i < total
            invariant
                i <= total,
                total == before.changes.len(),
                before.wf(),
                self@ == before.process_pr(pr_id, i as int, now),
                self@.wf(),
                self.spec_config_path() == old(self).spec_config_path(),
                keys@.map_values(|k: String| k@) == before.pr_keys(pr_id, i as int),
            decreases total - i,
        {
            proof {
                lemma_process_pr(before, pr_id, i as int, now);
            }
            let ready = self.state.changes[i].status == ConfigChangeStatus::Approved && (
            match self.state.changes[i].approval_pr_id {
                Some(linked) => linked == pr_id,
                None => false,
            });
            if ready {
                match self.activate_change((i + 1) as i32, Some(pr_id), now) {
                    Ok(key) => {
                        keys.push(key);
                    },
                    Err(_) => {},
                }
            }
            i = i + 1;
        }
        Ok(keys)
    }

    /// Takes values over from the file-based defaults, one after the
    /// other. An unknown key is registered with the value as its default.
    /// A known key gets the value where it differs from the live one,
    /// unless an approved proposal ever set that key: such a value is
    /// never overwritten. Returns how many values were taken over. Stops
    /// with an error at a new key that a full registry cannot take in,
    /// with the earlier values taken over.
    pub fn sync_from_yaml(&mut self, yaml_values: &Vec<(String, ConfigValue)>, now: i64) -> (result:
        Result<usize, GovernanceError>)
        ensures
            final(self)@.wf(),
            final(self).spec_config_path() == old(self).spec_config_path(),
            match result {
                Ok(count) => {
                    &&& final(self)@ == old(self)@.sync_all(keyed_values(yaml_values@), now)
                    &&& count == old(self)@.sync_count(keyed_values(yaml_values@), now)
                    &&& forall|n: int| !#[trigger] old(self)@.sync_stops_at(
                        keyed_values(yaml_values@),
                        now,
                        n,
                    )
                },
                Err(e) => {
                    &&& e is DatabaseError
                    &&& exists|n: int| #[trigger]
                        old(self)@.sync_stops_at(keyed_values(yaml_values@), now, n) && final(self)@
                            == old(self)@.sync_all(keyed_values(yaml_values@).take(n), now)
                },
            },
    {
        proof {
            use_type_invariant(&*self);
        }
        let ghost before = self@;
        let ghost yaml = keyed_values(yaml_values@);
        let mut count: usize = 0;
        let mut i: usize = 0;
        while i < yaml_values.len()
            invariant
                i <= yaml_values.len(),
                yaml == keyed_values(yaml_values@),
                before == old(self)@,
                count <= i,
                self@ == before.sync_all(yaml.take(i as int), now),
                count == before.sync_count(yaml.take(i as int), now),
                self@.wf(),
                self.spec_config_path() == old(self).spec_config_path(),
                forall|n: int| 0 <= n < i ==> !#[trigger] before.sync_stops_at(yaml, now, n),
            decreases yaml_values.len() - i,
        {
            let key = yaml_values[i].0.as_str();
            let value = &yaml_values[i].1;
            let ghost current = self@;
            proof {
                assert(yaml.take(i + 1).drop_last() =~= yaml.take(i as int));
            }
            match self.find_entry(key) {
                Some(at) => {
                    let differs = !self.state.entries[at].current_value.same(value);
                    if differs && !self.has_governance_history(key) {
                        let record = ConfigHistoryEntry {
                            config_key: key.to_owned(),
                            old_value: self.state.entries[at].current_value.duplicate(),
                            new_value: value.duplicate(),
                            changed_at: now,
                            changed_by: "yaml_sync".to_owned(),
                            change_id: None,
                            activation_method: ActivationMethod::YamlSync,
                        };
                        proof {
                            lemma_with_value_at(current, at as int, value@, now);
                            lemma_with_record_wf(
                                current.with_value_at(at as int, value@, now),
                                record@,
                            );
                        }
                        let mut state = RegistryState::empty();
                        core::mem::swap(&mut state, &mut self.state);
                        state.set_value(at, value.duplicate(), now);
                        state.push_record(record);
                        self.state = state;
                        count = count + 1;
                    }
                },
                None => {
                    let description = describe_synced(key);
                    match self.register_config(
                        key,
                        infer_category(key),
                        value.duplicate(),
                        Some(description.as_str()),
                        SYNCED_TIER_REQUIREMENT,
                        Some("yaml_sync"),
                        now,
                    ) {
                        Ok(_) => {
                            count = count + 1;
                        },
                        Err(e) => {
                            proof {
                                assert(before.sync_stops_at(yaml, now, i as int));
                            }
                            return Err(e);
                        },
                    }
                },
            }
            i = i + 1;
        }
        proof {
            assert(yaml.take(yaml_values.len() as int) =~= yaml);
        }
        Ok(count)
    }

    fn list_by_status(&self, status: ConfigChangeStatus, by_approval: bool) -> (listed: Vec<
        ConfigChange,
    >)
        ensures
            self@.lists_in_order(listed@.map_values(|c: ConfigChange| c@), status, by_approval),
    {
        let mut listed: Vec<ConfigChange> = Vec::new();
        let mut i: usize = 0;
        proof {
            use_type_invariant(self);
        }
        while i < self.state.changes.len()
            invariant
                i <= self.state.changes@.len(),
                self@.wf(),
                self@.listed_upto(
                    listed@.map_values(|c: ConfigChange| c@),
                    status,
                    by_approval,
                    i as int,
                ),
            decreases self.state.changes@.len() - i,
        {
            let ghost views = listed@.map_values(|c: ConfigChange| c@);
            if self.state.changes[i].status == status {
                let change = self.state.changes[i].duplicate();
                let time = order_key(&change, by_approval);
                let mut p: usize = 0;
                while p < listed.len() && order_key(&listed[p], by_approval) <= time
                    invariant
                        p <= listed@.len(),
                        time == order_time(change@, by_approval),
                        views == listed@.map_values(|c: ConfigChange| c@),
                        forall|j: int|
                            0 <= j < p ==> order_time(#[trigger] views[j], by_approval) <= time,
                    decreases listed@.len() - p,
                {
                    p = p + 1;
                }
                proof {
                    lemma_listed_insert(self@, views, status, by_approval, i as int, p as int);
                }
                listed.insert(p, change);
                assert(listed@.map_values(|c: ConfigChange| c@) =~= views.insert(
                    p as int,
                    change@,
                ));
            } else {
                proof {
                    lemma_listed_skip(self@, views, status, by_approval, i as int);
                }
            }
            i = i + 1;
        }
        listed
    }

    /// The pending proposals, the one made first at the head.
    pub fn get_pending_changes(&self) -> (result: Result<Vec<ConfigChange>, GovernanceError>)
        ensures
            match result {
                Ok(listed) => self@.lists_in_order(
                    listed@.map_values(|c: ConfigChange| c@),
                    ConfigChangeStatus::Pending,
                    false,
                ),
                Err(_) => false,
            },
    {
        Ok(self.list_by_status(ConfigChangeStatus::Pending, false))
    }

    /// The proposals that are approved and not yet activated, the one
    /// approved first at the head.
    pub fn get_approved_changes(&self) -> (result: Result<Vec<ConfigChange>, GovernanceError>)
        ensures
            match result {
                Ok(listed) => self@.lists_in_order(
                    listed@.map_values(|c: ConfigChange| c@),
                    ConfigChangeStatus::Approved,
                    true,
                ),
                Err(_) => false,
            },
    {
        Ok(self.list_by_status(ConfigChangeStatus::Approved, true))
    }

    /// Every registered parameter, by category in the order of the names
    /// of the categories, and within a category by key in the order of a
    /// dictionary.
    pub fn list_configs(&self) -> (result: Result<Vec<ConfigEntry>, GovernanceError>)
        ensures
            match result {
                Ok(configs) => self@.configs_upto(
                    configs@.map_values(|e: ConfigEntry| e@),
                    self@.entries.len() as int,
                ),
                Err(_) => false,
            },
    {
        let mut configs: Vec<ConfigEntry> = Vec::new();
        let mut i: usize = 0;
        proof {
            use_type_invariant(self);
        }
        while i < self.state.entries.len()
            invariant
                i <= self.state.entries@.len(),
                self@.wf(),
                self@.configs_upto(configs@.map_values(|e: ConfigEntry| e@), i as int),
            decreases self.state.entries@.len() - i,
        {
            let ghost views = configs@.map_values(|e: ConfigEntry| e@);
            let entry = self.state.entries[i].duplicate();
            let mut p: usize = 0;
            while p < configs.len() && !comes_before(&entry, &configs[p])
                invariant
                    p <= configs@.len(),
                    views == configs@.map_values(|e: ConfigEntry| e@),
                    forall|j: int| 0 <= j < p ==> !entry_before(entry@, #[trigger] views[j]),
                decreases configs@.len() - p,
            {
                p = p + 1;
            }
            proof {
                lemma_configs_insert(self@, views, i as int, p as int);
            }
            configs.insert(p, entry);
            assert(configs@.map_values(|e: ConfigEntry| e@) =~= views.insert(p as int, entry@));
            i = i + 1;
        }
        Ok(configs)
    }
}

/// Whether one parameter is listed before another.
fn comes_before(a: &ConfigEntry, b: &ConfigEntry) -> (before: bool)
    ensures
        before == entry_before(a@, b@),
{
    let x = a.config_category.position();
    let y = b.config_category.position();
    x < y || (x == y && text_less(a.config_key.as_str(), b.config_key.as_str()))
}

/// A listing of the first `n` parameters becomes one of the first `n + 1`
/// where the next parameter is put in before the first that comes after
/// it.
proof fn lemma_configs_insert(r: RegistryView, listed: Seq<ConfigEntryView>, n: int, p: int)
    requires
        r.wf(),
        0 <= n < r.entries.len(),
        r.configs_upto(listed, n),
        0 <= p <= listed.len(),
        forall|j: int| 0 <= j < p ==> !entry_before(r.entries[n], #[trigger] listed[j]),
        p < listed.len() ==> entry_before(r.entries[n], listed[p]),
    ensures
        r.configs_upto(listed.insert(p, r.entries[n]), n + 1),
{
    let c = r.entries[n];
    let before = |a: ConfigEntryView, b: ConfigEntryView| entry_before(a, b);
    assert forall|j: int| 0 <= j < p implies before(#[trigger] listed[j], c) by {
        let other = listed[j];
        lemma_text_order_total(other.config_key, c.config_key);
    }
    assert forall|j: int| p <= j < listed.len() implies before(c, #[trigger] listed[j]) by {
        if j > p {
            lemma_entry_order_transitive(c, listed[p], listed[j]);
        }
    }
    lemma_insert_in_order(listed, c, p, before);
    let after = listed.insert(p, c);
    assert forall|j: int| 0 <= j < after.len() implies 1 <= (#[trigger] after[j]).id <= n + 1
        && r.entries[after[j].id - 1] == after[j] by {
    }
}

/// The order of the listing of parameters is transitive.
proof fn lemma_entry_order_transitive(a: ConfigEntryView, b: ConfigEntryView, c: ConfigEntryView)
    requires
        entry_before(a, b),
        entry_before(b, c),
    ensures
        entry_before(a, c),
{
    if a.config_category.rank() == b.config_category.rank() && b.config_category.rank()
        == c.config_category.rank() {
        lemma_text_order_transitive(a.config_key, b.config_key, c.config_key);
    }
}

/// Where a proposal stands in a listing by time.
fn order_key(change: &ConfigChange, by_approval: bool) -> (time: i128)
    ensures
        time == order_time(change@, by_approval),
{
    if by_approval {
        match change.approved_at {
            Some(t) => t as i128,
            None => -0x8000_0000_0000_0000 - 1,
        }
    } else {
        change.proposed_at as i128
    }
}

/// The category given to a parameter that the file-based defaults bring in.
pub fn infer_category(key: &str) -> (category: ConfigCategory)
    ensures
        category == sync_category(key@),
{
    if contains(key, "tier_") || contains(key, "layer_") || contains(key, "veto_") {
        ConfigCategory::Thresholds
    } else if contains(key, "review_period") || contains(key, "duration") || contains(
        key,
        "period",
    ) {
        ConfigCategory::TimeWindows
    } else if contains(key, "max_") || contains(key, "min_") {
        ConfigCategory::Limits
    } else {
        ConfigCategory::Other
    }
}

/// The description given to a parameter that the file-based defaults
/// bring in.
pub fn describe_synced(key: &str) -> (description: String)
    ensures
        description@ == sync_description(key@),
{
    let mut description = "Synced from YAML: ".to_owned();
    description.append(key);
    description
}

/// Registering a new key leaves every registered key where it is.
pub proof fn lemma_register_keys(
    r: RegistryView,
    key: Seq<char>,
    category: ConfigCategory,
    default_value: ConfigValueView,
    description: Option<Seq<char>>,
    tier_requirement: i32,
    created_by: Option<Seq<char>>,
    now: i64,
)
    requires
        r.keys_unique(),
        !r.has_key(key),
    ensures
        r.register(
            key,
            category,
            default_value,
            description,
            tier_requirement,
            created_by,
            now,
        ).keys_unique(),
        forall|k: Seq<char>|
            r.has_key(k) ==> #[trigger] r.register(
                key,
                category,
                default_value,
                description,
                tier_requirement,
                created_by,
                now,
            ).has_key(k) && r.register(
                key,
                category,
                default_value,
                description,
                tier_requirement,
                created_by,
                now,
            ).index_of(k) == r.index_of(k),
{
    let after = r.register(
        key,
        category,
        default_value,
        description,
        tier_requirement,
        created_by,
        now,
    );
    assert forall|i: int, j: int| 0 <= i < j < after.entries.len() implies (
    #[trigger] after.entries[i]).config_key != (#[trigger] after.entries[j]).config_key by {
        if j == r.entries.len() {
            assert(!r.key_at(key, i));
        }
    }
    assert forall|k: Seq<char>| r.has_key(k) implies #[trigger] after.has_key(k)
        && after.index_of(k) == r.index_of(k) by {
        let i = r.index_of(k);
        lemma_index_of(after, k, i);
    }
}

/// A live value that an approved proposal once set survives every
/// take-over from the file-based defaults, whatever the defaults hold for
/// its key.
pub proof fn law_sync_keeps_governed_values(
    r: RegistryView,
    yaml: Seq<(Seq<char>, ConfigValueView)>,
    now: i64,
    key: Seq<char>,
)
    requires
        r.keys_unique(),
        r.has_key(key),
        r.governed(key),
    ensures
        r.sync_all(yaml, now).keys_unique(),
        r.sync_all(yaml, now).has_key(key),
        r.sync_all(yaml, now).governed(key),
        r.sync_all(yaml, now).index_of(key) == r.index_of(key),
        r.sync_all(yaml, now).current_value(key) == r.current_value(key),
    decreases yaml.len(),
{
    if yaml.len() > 0 {
        law_sync_keeps_governed_values(r, yaml.drop_last(), now, key);
        let earlier = r.sync_all(yaml.drop_last(), now);
        let k = yaml.last().0;
        let v = yaml.last().1;
        let after = earlier.sync_one(k, v, now);
        let w = choose|i: int|
            0 <= i < earlier.history.len() && (#[trigger] earlier.history[i]).config_key == key
                && earlier.history[i].activation_method == ActivationMethod::GovernanceApproved;
        if earlier.sync_applies(k, v) && earlier.has_key(k) {
            let i = earlier.index_of(k);
            let valued = earlier.with_value_at(i, v, now);
            lemma_same_keys(earlier, valued);
            lemma_same_keys(earlier, after);
            assert(after.history[w] == earlier.history[w]);
        } else if earlier.sync_applies(k, v) {
            lemma_register_keys(
                earlier,
                k,
                sync_category(k),
                v,
                Some(sync_description(k)),
                SYNCED_TIER_REQUIREMENT,
                Some(yaml_sync_name()),
                now,
            );
        }
    }
}

/// An approved proposal can be activated, a pending one cannot; the
/// activation sets the live value of the proposal's key to the proposed
/// value and adds exactly one record to the history.
pub proof fn law_activation(r: RegistryView, id: int, activation_pr_id: Option<i32>, now: i64)
    requires
        r.wf(),
        r.change_is(id, ConfigChangeStatus::Approved),
    ensures
        !r.change_is(id, ConfigChangeStatus::Pending),
        r.activate(id, activation_pr_id, now).wf(),
        r.activate(id, activation_pr_id, now).current_value(r.change(id).config_key) == Some(
            r.change(id).proposed_value,
        ),
        r.activate(id, activation_pr_id, now).history.len() == r.history.len() + 1,
        r.activate(id, activation_pr_id, now).history.last() == r.activation_record(id, now),
        r.activate(id, activation_pr_id, now).change_is(id, ConfigChangeStatus::Activated),
{
    lemma_activate(r, id, activation_pr_id, now);
}

/// One more history record keeps a registry well formed.
pub proof fn lemma_with_record_wf(r: RegistryView, record: ConfigHistoryView)
    requires
        r.wf(),
    ensures
        r.with_record(record).wf(),
{
    let after = r.with_record(record);
    lemma_same_keys(r, after);
}

/// A listing of the first `n` proposals is one of the first `n + 1` where
/// the next proposal has another status.
proof fn lemma_listed_skip(
    r: RegistryView,
    listed: Seq<ConfigChangeView>,
    status: ConfigChangeStatus,
    by_approval: bool,
    n: int,
)
    requires
        r.wf(),
        0 <= n < r.changes.len(),
        r.listed_upto(listed, status, by_approval, n),
        r.changes[n].status != status,
    ensures
        r.listed_upto(listed, status, by_approval, n + 1),
{
}

/// A listing of the first `n` proposals becomes one of the first `n + 1`
/// where the next proposal is put in behind all that are not later.
proof fn lemma_listed_insert(
    r: RegistryView,
    listed: Seq<ConfigChangeView>,
    status: ConfigChangeStatus,
    by_approval: bool,
    n: int,
    p: int,
)
    requires
        r.wf(),
        0 <= n < r.changes.len(),
        r.listed_upto(listed, status, by_approval, n),
        r.changes[n].status == status,
        0 <= p <= listed.len(),
        forall|j: int|
            0 <= j < p ==> order_time(#[trigger] listed[j], by_approval) <= order_time(
                r.changes[n],
                by_approval,
            ),
        p < listed.len() ==> order_time(listed[p], by_approval) > order_time(
            r.changes[n],
            by_approval,
        ),
    ensures
        r.listed_upto(listed.insert(p, r.changes[n]), status, by_approval, n + 1),
{
    let c = r.changes[n];
    let before = |a: ConfigChangeView, b: ConfigChangeView| listed_before(a, b, by_approval);
    lemma_insert_in_order(listed, c, p, before);
    let after = listed.insert(p, c);
    assert forall|j: int| 0 <= j < after.len() implies r.change_is(
        (#[trigger] after[j]).id as int,
        status,
    ) && r.change(after[j].id as int) == after[j] && after[j].id <= n + 1 by {
    }
}

/// In a registry without a doubled key, the position of a key is the one
/// position at which it stands.
pub proof fn lemma_index_of(r: RegistryView, key: Seq<char>, i: int)
    requires
        r.keys_unique(),
        r.key_at(key, i),
    ensures
        r.has_key(key),
        r.index_of(key) == i,
{
}

/// Two registries with the same keys at the same positions know the same
/// keys at the same positions.
pub proof fn lemma_same_keys(r: RegistryView, q: RegistryView)
    requires
        r.keys_unique(),
        q.entries.len() == r.entries.len(),
        forall|i: int|
            0 <= i < r.entries.len() ==> (#[trigger] q.entries[i]).config_key
                == r.entries[i].config_key,
    ensures
        q.keys_unique(),
        forall|k: Seq<char>| #[trigger] q.has_key(k) == r.has_key(k),
        forall|k: Seq<char>| r.has_key(k) ==> #[trigger] q.index_of(k) == r.index_of(k),
{
    assert forall|k: Seq<char>| #[trigger] q.has_key(k) == r.has_key(k) by {
        if q.has_key(k) {
            let i = q.index_of(k);
            assert(r.key_at(k, i));
        }
        if r.has_key(k) {
            let i = r.index_of(k);
            assert(q.key_at(k, i));
        }
    }
    assert forall|k: Seq<char>| r.has_key(k) implies #[trigger] q.index_of(k) == r.index_of(
        k,
    ) by {
        let i = r.index_of(k);
        lemma_index_of(q, k, i);
    }
}

/// Replacing a proposal by one with the same number and key keeps a
/// registry well formed.
pub proof fn lemma_with_change_wf(r: RegistryView, id: int, change: ConfigChangeView)
    requires
        r.wf(),
        r.has_change(id),
        change.id == id,
        change.config_key == r.change(id).config_key,
    ensures
        r.with_change(id, change).wf(),
{
    let after = r.with_change(id, change);
    assert forall|i: int| 0 <= i < after.changes.len() implies after.has_key(
        (#[trigger] after.changes[i]).config_key,
    ) by {
        let k = r.changes[i].config_key;
        assert(after.key_at(k, r.index_of(k)));
    }
}

/// Setting a live value keeps a registry well formed and leaves every key
/// where it is.
pub proof fn lemma_with_value_at(r: RegistryView, i: int, value: ConfigValueView, now: i64)
    requires
        r.wf(),
        0 <= i < r.entries.len(),
    ensures
        r.with_value_at(i, value, now).wf(),
        forall|k: Seq<char>| #[trigger] r.with_value_at(i, value, now).has_key(k) == r.has_key(k),
        forall|k: Seq<char>|
            r.has_key(k) ==> #[trigger] r.with_value_at(i, value, now).index_of(k) == r.index_of(
                k,
            ),
{
    let after = r.with_value_at(i, value, now);
    lemma_same_keys(r, after);
}

/// What the activation of a proposal does to a well-formed registry: the
/// registry stays well formed, the live value of the proposal's key is
/// the proposed value, the history has exactly one more record, and the
/// key has a record of an approved change.
pub proof fn lemma_activate(r: RegistryView, id: int, activation_pr_id: Option<i32>, now: i64)
    requires
        r.wf(),
        r.has_change(id),
    ensures
        r.activate(id, activation_pr_id, now).wf(),
        r.activate(id, activation_pr_id, now).current_value(r.change(id).config_key) == Some(
            r.change(id).proposed_value,
        ),
        r.activate(id, activation_pr_id, now).history == r.history.push(
            r.activation_record(id, now),
        ),
        r.activate(id, activation_pr_id, now).governed(r.change(id).config_key),
        r.activate(id, activation_pr_id, now).change_is(id, ConfigChangeStatus::Activated),
        r.activate(id, activation_pr_id, now).changes.len() == r.changes.len(),
        forall|other: int|
            r.has_change(other) && other != id ==> #[trigger] r.activate(
                id,
                activation_pr_id,
                now,
            ).change(other) == r.change(other),
        forall|k: Seq<char>|
            #[trigger] r.activate(id, activation_pr_id, now).has_key(k) == r.has_key(k),
        forall|k: Seq<char>|
            r.has_key(k) && k != r.change(id).config_key ==> #[trigger] r.activate(
                id,
                activation_pr_id,
                now,
            ).current_value(k) == r.current_value(k),
        forall|k: Seq<char>|
            r.governed(k) ==> #[trigger] r.activate(id, activation_pr_id, now).governed(k),
{
    let change = r.change(id);
    let key = change.config_key;
    let at = r.index_of(key);
    let valued = r.with_value(key, change.proposed_value, now);
    lemma_with_value_at(r, at, change.proposed_value, now);
    let updated = ConfigChangeView {
        status: ConfigChangeStatus::Activated,
        activated_at: Some(now),
        activation_pr_id,
        ..change
    };
    let changed = valued.with_change(id, updated);
    lemma_with_change_wf(valued, id, updated);
    let after = changed.with_record(r.activation_record(id, now));
    lemma_same_keys(r, after);
    assert(after.history[r.history.len() as int].config_key == key);
    assert forall|k: Seq<char>| r.governed(k) implies #[trigger] after.governed(k) by {
        let w = choose|i: int|
            0 <= i < r.history.len() && (#[trigger] r.history[i]).config_key == k
                && r.history[i].activation_method == ActivationMethod::GovernanceApproved;
        assert(after.history[w] == r.history[w]);
    }
    assert forall|k: Seq<char>| r.has_key(k) && k != key implies #[trigger] after.current_value(
        k,
    ) == r.current_value(k) by {
    }
}

/// Looking at the first `n` proposals for an approval reference keeps a
/// well-formed registry well formed, and leaves the proposals beyond the
/// first `n` as they were.
pub proof fn lemma_process_pr(r: RegistryView, pr_id: i32, n: int, now: i64)
    requires
        r.wf(),
        0 <= n <= r.changes.len(),
    ensures
        r.process_pr(pr_id, n, now).wf(),
        r.process_pr(pr_id, n, now).changes.len() == r.changes.len(),
        forall|id: int|
            n < id <= r.changes.len() ==> #[trigger] r.process_pr(pr_id, n, now).change(id)
                == r.change(id),
    decreases n,
{
    if n > 0 {
        lemma_process_pr(r, pr_id, n - 1, now);
        let earlier = r.process_pr(pr_id, n - 1, now);
        if r.pr_ready(n, pr_id) {
            lemma_activate(earlier, n, Some(pr_id), now);
        }
    }
}

/// After the first `n` proposals were looked at for an approval
/// reference, the keys that were changed are those that the proposals
/// give a value, and the live value of each is that value.
pub proof fn lemma_pr_value(r: RegistryView, pr_id: i32, n: int, now: i64, key: Seq<char>)
    requires
        r.wf(),
        0 <= n <= r.changes.len(),
    ensures
        r.pr_keys(pr_id, n).contains(key) <==> r.pr_value(pr_id, n, key) is Some,
        r.pr_value(pr_id, n, key) matches Some(v) ==> r.process_pr(pr_id, n, now).current_value(key)
            == Some(v),
    decreases n,
{
    if n > 0 {
        lemma_pr_value(r, pr_id, n - 1, now, key);
        lemma_process_pr(r, pr_id, n - 1, now);
        let earlier = r.process_pr(pr_id, n - 1, now);
        let keys = r.pr_keys(pr_id, n - 1);
        if r.pr_ready(n, pr_id) {
            let changed = r.change(n).config_key;
            lemma_activate(earlier, n, Some(pr_id), now);
            assert(earlier.change(n) == r.change(n));
            let longer = keys.push(changed);
            assert(longer[keys.len() as int] == changed);
            if keys.contains(key) {
                let at = choose|i: int| 0 <= i < keys.len() && keys[i] == key;
                assert(longer[at] == key);
            }
            if longer.contains(key) && key != changed {
                let at = choose|i: int| 0 <= i < longer.len() && longer[i] == key;
                assert(keys[at] == key);
            }
        }
    }
}

/// Registering a new key keeps a registry well formed.
pub proof fn lemma_register_wf(
    r: RegistryView,
    key: Seq<char>,
    category: ConfigCategory,
    default_value: ConfigValueView,
    description: Option<Seq<char>>,
    tier_requirement: i32,
    created_by: Option<Seq<char>>,
    now: i64,
)
    requires
        r.wf(),
        !r.has_key(key),
        r.entries.len() < i32::MAX,
    ensures
        r.register(key, category, default_value, description, tier_requirement, created_by, now).wf(),
        r.register(
            key,
            category,
            default_value,
            description,
            tier_requirement,
            created_by,
            now,
        ).has_key(key),
        forall|k: Seq<char>|
            r.has_key(k) ==> #[trigger] r.register(
                key,
                category,
                default_value,
                description,
                tier_requirement,
                created_by,
                now,
            ).has_key(k),
{
    let after = r.register(
        key,
        category,
        default_value,
        description,
        tier_requirement,
        created_by,
        now,
    );
    assert(after.key_at(key, r.entries.len() as int));
    assert forall|k: Seq<char>| r.has_key(k) implies after.has_key(k) by {
        let i = r.index_of(k);
        assert(after.key_at(k, i));
    }
    assert forall|i: int, j: int| 0 <= i < j < after.entries.len() implies (
    #[trigger] after.entries[i]).config_key != (#[trigger] after.entries[j]).config_key by {
        if j == r.entries.len() {
            assert(!r.key_at(key, i));
        }
    }
}

} // verus!
