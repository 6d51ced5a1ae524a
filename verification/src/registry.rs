use vstd::prelude::*;

use crate::common::Tool;
use crate::crypto::signature_of;
use crate::security::IntegrityManager;
use crate::string_map::StringMap;

verus! {

/// The character sequences of `strings`, in order.
pub open spec fn string_views(strings: Seq<String>) -> Seq<Seq<char>> {
    strings.map_values(|s: String| s@)
}

/// What loading a registry gives: the registry when `signature` is the
/// signature of its serialization `unsigned_json` under `key`, and nothing
/// otherwise.
pub open spec fn load_result(registry: ToolRegistry, signature: Seq<char>, unsigned_json: Seq<char>, key: Seq<u8>) -> Option<ToolRegistry> {
    if signature == signature_of(unsigned_json, key) {
        Some(registry)
    } else {
        None
    }
}

/// The catalog of tools, keyed by name, together with the signature that
/// vouches for its persisted form.
pub struct ToolRegistry {
    pub tools: StringMap<Tool>,
    pub signature: String,
}

impl ToolRegistry {
    /// Holds each tool name at most once.
    pub open spec fn wf(&self) -> bool {
        self.tools.wf()
    }

    /// An empty registry with no signature.
    pub fn new() -> (r: Self)
        ensures
            r.wf(),
            r.tools@ == Map::<Seq<char>, Tool>::empty(),
            r.signature@ == Seq::<char>::empty(),
    {
        ToolRegistry { tools: StringMap::new(), signature: String::new() }
    }

    /// Adds `tool` under its own name, replacing any tool of that name.
    pub fn register_tool(&mut self, tool: Tool)
        requires
            old(self).wf(),
        ensures
            final(self).wf(),
            final(self).tools@ == old(self).tools@.insert(tool.name@, tool),
            final(self).signature == old(self).signature,
    {
        let name = tool.name.clone();
        self.tools.insert(name, tool);
    }

    /// The names under which tools are registered, each once, in the
    /// registry's key order.
    pub fn tool_names(&self) -> (names: Vec<String>)
        requires
            self.wf(),
        ensures
            string_views(names@) == self.tools.key_order(),
    {
        proof {
            self.tools.lemma_key_order();
        }
        let n = self.tools.len();
        let mut names: Vec<String> = Vec::new();
        for i in 0..n
            invariant
                self.wf(),
                n == self.tools.key_order().len(),
                string_views(names@) =~= self.tools.key_order().take(i as int),
        {
            let ghost before = names@;
            let (name, _) = self.tools.entry(i);
            names.push(name.clone());
            proof {
                assert(names@ == before.push(*name));
                let sv = string_views(names@);
                let old_sv = string_views(before);
                let target = self.tools.key_order().take(i + 1);
                assert(old_sv.len() == i);
                assert(before.len() == i);
                assert(names@.len() == i + 1);
                assert(sv.len() == i + 1);
                assert(target.len() == i + 1);
                assert forall|j: int| 0 <= j < i + 1 implies #[trigger] sv[j] == target[j] by {
                    if j < i {
                        assert(names@[j] == before[j]);
                        assert(old_sv[j] == self.tools.key_order().take(i as int)[j]);
                    }
                }
                assert(sv =~= target);
            }
        }
        proof {
            assert(self.tools.key_order().take(n as int) =~= self.tools.key_order());
        }
        names
    }

    /// Clears the signature, so that the registry can be serialized for
    /// signing or checking, and hands back the signature it held.
    pub fn clear_signature(&mut self) -> (previous: String)
        ensures
            previous == old(self).signature,
            final(self).tools == old(self).tools,
            final(self).signature@ == Seq::<char>::empty(),
    {
        let mut previous = String::new();
        std::mem::swap(&mut previous, &mut self.signature);
        previous
    }

    /// Signs the registry: `unsigned_json` is its serialization with the
    /// signature cleared, and the signature becomes the HMAC-SHA256 of that
    /// text under `key`.
    pub fn seal(&mut self, unsigned_json: &str, key: &[u8])
        ensures
            final(self).tools == old(self).tools,
            final(self).signature@ == signature_of(unsigned_json@, key@),
    {
        self.signature = IntegrityManager::sign_data(unsigned_json, key);
    }

    /// The registry as loaded from storage: itself when `signature` is the
    /// signature of `unsigned_json` (its serialization with the signature
    /// cleared) under `key`, and `None` when the check fails.
    pub fn authenticated(self, signature: &str, unsigned_json: &str, key: &[u8]) -> (r: Option<ToolRegistry>)
        ensures
            r == load_result(self, signature@, unsigned_json@, key@),
    {
        if IntegrityManager::verify_data(unsigned_json, signature, key) {
            Some(self)
        } else {
            None
        }
    }
}

/// Saving then loading gives the registry back: when a registry was sealed
/// over `unsigned_json` with `key` (`seal`), and its signature was taken off
/// again (`clear_signature`), then presenting that signature with the same
/// serialization and key (`authenticated`) yields the registry, with the same
/// tools.
pub proof fn lemma_sealed_registry_is_accepted(
    sealed: ToolRegistry,
    cleared: ToolRegistry,
    taken: String,
    unsigned_json: Seq<char>,
    key: Seq<u8>,
)
    requires
        sealed.signature@ == signature_of(unsigned_json, key),
        taken == sealed.signature,
        cleared.tools == sealed.tools,
    ensures
        load_result(cleared, taken@, unsigned_json, key) == Some(cleared),
        cleared.tools@ == sealed.tools@,
{
}

/// Loading refuses a registry whose serialization is not the one that was
/// signed with the presented signature under the key, unless the two
/// serializations have the same signature.
pub proof fn lemma_altered_registry_is_refused(
    registry: ToolRegistry,
    signed_json: Seq<char>,
    presented_json: Seq<char>,
    key: Seq<u8>,
)
    requires
        signature_of(presented_json, key) != signature_of(signed_json, key),
    ensures
        load_result(registry, signature_of(signed_json, key), presented_json, key) is None,
{
}

} // verus!
