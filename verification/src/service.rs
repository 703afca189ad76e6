//! What the service knows while it distributes templates.
use crate::messages::StoredTemplate;
use crate::types::{BlockHash, Capability};
use std::collections::{HashMap, HashSet};
use vstd::prelude::*;

verus! {

broadcast use vstd::std_specs::hash::group_hash_axioms;

/// Whether a lock can still be taken.
#[derive(Clone, Copy, Debug, PartialEq, Eq, Structural)]
pub enum Lock {
    Healthy,
    /// Someone panicked while holding it.
    Poisoned,
}

/// The locks around the two collections that tasks share.
#[derive(Clone, Copy, Debug, PartialEq, Eq, Structural)]
pub struct Locks {
    pub template_data: Lock,
    pub stale_template_ids: Lock,
}

/// The state that the tasks of one connection to a node share.
#[derive(Debug)]
pub struct BitcoinCoreSv2 {
    /// Makes threads on the node's side.
    pub thread_map: Capability,
    /// The thread for all requests but those that wait for templates.
    pub thread_ipc_client: Capability,
    /// By how many satoshis fees must rise before a new template is worth sending.
    pub fee_threshold: u64,
    /// The newest template of the node, from which the next one is waited for.
    pub current_template_ipc_client: Option<Capability>,
    /// The block that the newest template builds on.
    pub current_prev_hash: Option<BlockHash>,
    /// The templates that solutions and requests may name.
    pub template_data: HashMap<u64, StoredTemplate>,
    /// The templates that the last change of the chain tip left behind.
    pub stale_template_ids: HashSet<u64>,
    /// How often a template client was made for new coinbase constraints.
    pub coinbase_output_constraints_counter: u64,
    /// Whether the token that ends the current template monitor has been fired.
    pub template_token_cancelled: bool,
}

/// What a [`BitcoinCoreSv2`] holds.
#[verifier::ext_equal]
pub struct ServiceView {
    pub thread_map: Capability,
    pub thread_ipc_client: Capability,
    pub fee_threshold: u64,
    pub template_client: Option<Capability>,
    pub prev_hash: Option<BlockHash>,
    pub templates: Map<u64, StoredTemplate>,
    pub stale: Set<u64>,
    pub constraints_counter: u64,
    pub template_token_cancelled: bool,
}

impl ServiceView {
    /// Every template is kept under its own number.
    pub open spec fn well_formed(self) -> bool {
        forall|id: u64| #[trigger]
            self.templates.contains_key(id) ==> self.templates[id].template_id == id
    }

    /// `template` builds on the block that the newest template builds on.
    pub open spec fn on_tip(self, template: StoredTemplate) -> bool {
        self.prev_hash == Some(template.prev_hash)
    }

    /// Every template that is kept builds on the block that the newest one builds on.
    pub open spec fn all_on_tip(self) -> bool {
        forall|id: u64| #[trigger]
            self.templates.contains_key(id) ==> self.on_tip(self.templates[id])
    }

    /// The state once `template` is kept under its number.
    pub open spec fn saved(self, template: StoredTemplate) -> ServiceView {
        ServiceView { templates: self.templates.insert(template.template_id, template), ..self }
    }

    /// The state once the chain tip has changed and `template` is the first that
    /// builds on the new one: what was kept is stale, and only `template` is kept.
    pub open spec fn tip_changed(self, template: StoredTemplate) -> ServiceView {
        ServiceView {
            prev_hash: Some(template.prev_hash),
            stale: self.templates.dom(),
            templates: Map::empty().insert(template.template_id, template),
            ..self
        }
    }
}

impl View for BitcoinCoreSv2 {
    type V = ServiceView;

    open spec fn view(&self) -> ServiceView {
        ServiceView {
            thread_map: self.thread_map,
            thread_ipc_client: self.thread_ipc_client,
            fee_threshold: self.fee_threshold,
            template_client: self.current_template_ipc_client,
            prev_hash: self.current_prev_hash,
            templates: self.template_data@,
            stale: self.stale_template_ids@,
            constraints_counter: self.coinbase_output_constraints_counter,
            template_token_cancelled: self.template_token_cancelled,
        }
    }
}

/// `list` names every template of `templates` once, in some order.
pub open spec fn lists_once(
    list: Seq<StoredTemplate>,
    templates: Map<u64, StoredTemplate>,
) -> bool {
    exists|ids: Seq<u64>| #[trigger] lists_by_id(ids, list, templates)
}

/// `list` names the templates kept under `ids`, and `ids` are the numbers of all
/// templates, each once.
pub open spec fn lists_by_id(
    ids: Seq<u64>,
    list: Seq<StoredTemplate>,
    templates: Map<u64, StoredTemplate>,
) -> bool {
    &&& ids.no_duplicates()
    &&& ids.to_set() == templates.dom()
    &&& ids.len() == templates.dom().len()
    &&& list == ids.map_values(|id: u64| templates[id])
}

impl BitcoinCoreSv2 {
    /// A service that has no template yet.
    pub fn new(
        thread_map: Capability,
        thread_ipc_client: Capability,
        fee_threshold: u64,
    ) -> (res: Self)
        ensures
            res@ == (ServiceView {
                thread_map,
                thread_ipc_client,
                fee_threshold,
                template_client: None,
                prev_hash: None,
                templates: Map::empty(),
                stale: Set::empty(),
                constraints_counter: 0,
                template_token_cancelled: false,
            }),
            res@.well_formed(),
            res@.all_on_tip(),
    {
        BitcoinCoreSv2 {
            thread_map,
            thread_ipc_client,
            fee_threshold,
            current_template_ipc_client: None,
            current_prev_hash: None,
            template_data: HashMap::new(),
            stale_template_ids: HashSet::new(),
            coinbase_output_constraints_counter: 0,
            template_token_cancelled: false,
        }
    }

    /// Keeps a template under its number.
    pub fn save_template(&mut self, template: StoredTemplate)
        ensures
            final(self)@ == old(self)@.saved(template),
            old(self)@.well_formed() ==> final(self)@.well_formed(),
            old(self)@.all_on_tip() && old(self)@.on_tip(template) ==> final(self)@.all_on_tip(),
    {
        self.template_data.insert(template.template_id, template);
    }

    /// The templates that are kept, in some order.
    pub fn kept_templates(&self) -> (kept: Vec<StoredTemplate>)
        ensures
            lists_once(kept@, self@.templates),
    {
        let mut kept: Vec<StoredTemplate> = Vec::new();
        let ghost templates = self.template_data@;
        let ghost all = vstd::std_specs::iter::IteratorSpec::remaining(
            &vstd::std_specs::hash::spec_keys_iter(&self.template_data),
        ).unref();
        for id in keys: self.template_data.keys()
            invariant
                templates == self.template_data@,
                all == keys.seq().unref(),
                all.to_set() == templates.dom(),
                all.no_duplicates(),
                kept@ == all.take(keys.index()).map_values(|id: u64| templates[id]),
        {
            match self.template_data.get(id) {
                Some(template) => kept.push(*template),
                None => {},
            }
            assert(kept@ =~= all.take(keys.index() + 1).map_values(|id: u64| templates[id]));
        }
        proof {
            all.unique_seq_to_set();
            assert(all.take(all.len() as int) =~= all);
            assert(lists_by_id(all, kept@, templates));
        }
        kept
    }

    /// Turns to a new chain tip, on which `template` builds. Returns the templates
    /// that are kept no longer.
    pub fn change_tip(&mut self, template: StoredTemplate) -> (retired: Vec<StoredTemplate>)
        ensures
            final(self)@ == old(self)@.tip_changed(template),
            lists_once(retired@, old(self)@.templates),
            final(self)@.well_formed(),
            final(self)@.all_on_tip(),
    {
        let retired = self.kept_templates();
        let mut stale: HashSet<u64> = HashSet::new();
        let ghost templates = self.template_data@;
        let ghost all = vstd::std_specs::iter::IteratorSpec::remaining(
            &vstd::std_specs::hash::spec_keys_iter(&self.template_data),
        ).unref();
        for id in keys: self.template_data.keys()
            invariant
                all == keys.seq().unref(),
                all.to_set() == templates.dom(),
                stale@ == all.take(keys.index()).to_set(),
        {
            stale.insert(*id);
            proof {
                broadcast use vstd::seq_lib::group_seq_properties;

                assert(all.take(keys.index() + 1) =~= all.take(keys.index()).push(*id));
                assert(all.take(keys.index()).push(*id).to_set() =~= all.take(
                    keys.index(),
                ).to_set().insert(*id));
            }
        }
        assert(all.take(all.len() as int) =~= all);
        self.current_prev_hash = Some(template.prev_hash);
        self.stale_template_ids = stale;
        self.template_data.clear();
        self.template_data.insert(template.template_id, template);
        retired
    }
}

} // verus!
