//! The inbound plugin payload: the slice of the wire this plugin reads, and
//! the binding paths shared by every hook.

use vstd::prelude::*;
use crate::text::{chars_eq, chars_of};

verus! {

broadcast use vstd::string::group_string_axioms;

/// Trailer metadata: each key with its values, keys distinct.
pub type Metadata = Vec<(String, Vec<String>)>;

/// The binding paths: the project root the plugin was invoked from (always
/// present), the landing checkout holding committed config, and the store
/// checkout holding the tasks (empty when the wire carries none).
#[derive(Debug, Clone)]
pub struct Binding {
    pub invocation_path: String,
    pub landing: String,
    pub store: String,
}

impl Default for Binding {
    fn default() -> (r: Binding)
        ensures
            r.invocation_path@.len() == 0,
            r.landing@.len() == 0,
            r.store@.len() == 0,
    {
        Binding { invocation_path: String::new(), landing: String::new(), store: String::new() }
    }
}

/// The index of the first entry keyed `key` at or after `i`, or -1.
pub open spec fn key_index(es: Seq<(String, Vec<String>)>, key: Seq<char>, i: int) -> int
    decreases es.len() - i,
{
    if i < 0 || i >= es.len() {
        -1
    } else if es[i].0@ == key {
        i
    } else {
        key_index(es, key, i + 1)
    }
}

/// The first value of the `bl-id` trailer, if the metadata carries one.
pub open spec fn metadata_id_spec(metadata: Option<Seq<(String, Vec<String>)>>) -> Option<Seq<char>> {
    match metadata {
        None => None,
        Some(es) => {
            let i = key_index(es, "bl-id"@, 0);
            if i < 0 || es[i].1@.len() == 0 {
                None
            } else {
                Some(es[i].1@[0]@)
            }
        },
    }
}

/// The sealed ball id from the `bl-id` trailer; `None` on a pre wire.
pub fn metadata_id(metadata: Option<&Metadata>) -> (r: Option<String>)
    ensures
        crate::marker::opt_view(r) == metadata_id_spec(
            match metadata {
                Some(m) => Some(m@),
                None => None,
            },
        ),
{
    let es = match metadata {
        Some(m) => m,
        None => {
            return None;
        },
    };
    let want = chars_of("bl-id");
    let mut i: usize = 0;
    while i < es.len()
        invariant
            i <= es.len(),
            metadata == Some(es),
            want@ == "bl-id"@,
            key_index(es@, "bl-id"@, i as int) == key_index(es@, "bl-id"@, 0),
        decreases es.len() - i,
    {
        if chars_eq(&chars_of(es[i].0.as_str()), &want) {
            assert(key_index(es@, "bl-id"@, i as int) == i);
            if es[i].1.len() == 0 {
                return None;
            }
            return Some(es[i].1[0].clone());
        }
        i += 1;
    }
    None
}

/// One payload as received on stdin, trimmed to the consumed fields.
#[derive(Debug, Clone)]
pub struct Payload {
    pub op: String,
    /// The invoking identity; the pull side stamps shelled verbs with it.
    pub actor: String,
    pub binding: Binding,
    /// Trailers of the seal commit, incl. the sealed `bl-id`.
    pub metadata: Option<Metadata>,
}

impl Payload {
    /// The sealed ball id, from the `bl-id` trailer.
    pub fn id(&self) -> (r: Option<String>)
        ensures
            crate::marker::opt_view(r) == metadata_id_spec(
                match self.metadata {
                    Some(m) => Some(m@),
                    None => None,
                },
            ),
    {
        match &self.metadata {
            Some(m) => metadata_id(Some(m)),
            None => metadata_id(None),
        }
    }
}

} // verus!
