//! The three open-data endpoints.
//!
//! Each operation's URL is the fixed API base followed by its own path
//! suffix. [`lemma_operation_urls_distinct`] proves that no two
//! operations ever target the same URL.

use vstd::prelude::*;

verus! {

/// The fixed base of every open-data URL.
pub const API_BASE: &'static str = "https://public.api.avoimuusrekisteri.fi";

/// The three operations the front-end can invoke.
#[derive(Clone, Copy, PartialEq, Eq, Debug)]
pub enum Operation {
    /// Activity notifications: lobbying-interaction records.
    ActivityNotifications,
    /// Register notifications: registration-event records.
    RegisterNotifications,
    /// Targets: the entities lobbying is directed at.
    Targets,
}

/// The path suffix of each operation.
pub open spec fn operation_path_spec(op: Operation) -> Seq<char> {
    match op {
        Operation::ActivityNotifications => "/open-data-activity-notification"@,
        Operation::RegisterNotifications => "/open-data-register-notification"@,
        Operation::Targets => "/open-data-target/targets"@,
    }
}

/// The full URL of each operation: the base followed by its path suffix.
pub open spec fn operation_url_spec(op: Operation) -> Seq<char> {
    API_BASE@ + operation_path_spec(op)
}

/// The path suffix of `op`.
pub fn operation_path(op: Operation) -> (r: &'static str)
    ensures
        r@ == operation_path_spec(op),
{
    match op {
        Operation::ActivityNotifications => "/open-data-activity-notification",
        Operation::RegisterNotifications => "/open-data-register-notification",
        Operation::Targets => "/open-data-target/targets",
    }
}

/// The full URL of `op`.
pub fn operation_url(op: Operation) -> (r: String)
    ensures
        r@ == operation_url_spec(op),
{
    let mut s = String::from_str(API_BASE);
    s.append(operation_path(op));
    s
}

/// Distinct operations target distinct URLs: the three path suffixes
/// already differ at their twelfth character.
pub proof fn lemma_operation_urls_distinct(a: Operation, b: Operation)
    requires
        a != b,
    ensures
        operation_url_spec(a) != operation_url_spec(b),
{
    reveal_strlit("https://public.api.avoimuusrekisteri.fi");
    reveal_strlit("/open-data-activity-notification");
    reveal_strlit("/open-data-register-notification");
    reveal_strlit("/open-data-target/targets");
    assert(operation_url_spec(a)[50] != operation_url_spec(b)[50]);
}

} // verus!
