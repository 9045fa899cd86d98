//! Handles: small integers that stand for documents and interactions, and
//! the registry that resolves them.
//!
//! An interaction handle packs the identifier of its document into the high
//! sixteen bits and the one-based position of the interaction into the low
//! sixteen. Position zero means that the interaction was never created; it
//! resolves to nothing.
use crate::model::{
    Interaction, InteractionModel, PactHandleInner, PactHandleInnerModel, PactSpecification,
    V4Pact, V4PactModel,
};
use std::collections::HashMap;
use vstd::prelude::*;

verus! {

/// The packed form of a document identifier and a position.
pub open spec fn compose(document: u16, position: u16) -> u32 {
    (document as u32 * 65536 + position as u32) as u32
}

/// The document identifier in a packed handle.
pub open spec fn document_of(packed: u32) -> u16 {
    (packed / 65536) as u16
}

/// The position in a packed handle.
pub open spec fn position_of(packed: u32) -> u16 {
    (packed % 65536) as u16
}

/// The packed form of a document identifier and a position that may be too
/// large for sixteen bits: the sum wraps.
pub open spec fn compose_wrapping(document: u16, position: usize) -> u32 {
    ((document as int * 65536 + position as int) % 0x1_0000_0000) as u32
}

/// Packing what was unpacked gives the handle back.
pub proof fn lemma_compose_decompose(packed: u32)
    ensures
        compose(document_of(packed), position_of(packed)) == packed,
{
}

/// Unpacking what was packed gives the parts back.
pub proof fn lemma_decompose_compose(document: u16, position: u16)
    ensures
        document_of(compose(document, position)) == document,
        position_of(compose(document, position)) == position,
{
}

/// The packed form is the document identifier shifted to the high sixteen
/// bits, with the position in the low sixteen.
pub proof fn lemma_compose_is_shift_or(document: u16, position: u16)
    ensures
        compose(document, position) == ((document as u32) << 16) | (position as u32),
{
    let high: u32 = document as u32;
    let low: u32 = position as u32;
    assert((high << 16) | low == high * 65536 + low) by (bit_vector)
        requires
            high < 65536,
            low < 65536,
    ;
}

/// A handle is the packed form of its own parts, whatever the handle.
pub proof fn lemma_handle_round_trip(handle: InteractionHandle)
    ensures
        compose(handle.document(), handle.position()) == handle.interaction_ref,
{
}

/// The registry's view: documents by identifier.
pub type RegistryModel = Map<u16, PactHandleInnerModel>;

/// The hash map that the registry keeps: documents by identifier.
pub type DocumentTable = HashMap<u16, PactHandleInner>;

/// The registry of documents. A process keeps one, behind a lock.
#[derive(Debug)]
pub struct HandleRegistry {
    pub docs: DocumentTable,
}

impl View for HandleRegistry {
    type V = RegistryModel;

    open spec fn view(&self) -> RegistryModel {
        self.docs@.map_values(|d: PactHandleInner| d@)
    }
}

/// The identifier that the next document of a registry gets: one more than
/// the number of documents, in sixteen bits.
pub open spec fn next_id(registry: RegistryModel) -> u16 {
    ((registry.len() + 1) % 65536) as u16
}

/// The interaction that a document identifier and a position resolve to.
pub open spec fn interaction_at(registry: RegistryModel, document: u16, position: u16) -> Option<
    InteractionModel,
> {
    if registry.contains_key(document) && 1 <= position
        <= registry[document].pact.interactions.len() {
        Some(registry[document].pact.interactions[position - 1])
    } else {
        None
    }
}

/// Position zero resolves to nothing, in any registry and any document.
pub proof fn lemma_position_zero_resolves_to_nothing(registry: RegistryModel, document: u16)
    ensures
        interaction_at(registry, document, 0) is None,
{
}

/// Once a document is deleted, no position of it resolves to anything.
pub proof fn lemma_deleted_document_resolves_to_nothing(
    registry: RegistryModel,
    document: u16,
    position: u16,
)
    ensures
        interaction_at(registry.remove(document), document, position) is None,
{
}

/// An interaction that has been put at a place is what the place resolves
/// to, and the other places resolve to what they did.
pub proof fn lemma_registry_with(
    registry: RegistryModel,
    document: u16,
    position: u16,
    interaction: InteractionModel,
    other: u16,
)
    requires
        interaction_at(registry, document, position) is Some,
    ensures
        interaction_at(registry_with(registry, document, position, interaction), document, position)
            == Some(interaction),
        other != position ==> interaction_at(
            registry_with(registry, document, position, interaction),
            document,
            other,
        ) == interaction_at(registry, document, other),
        registry_with(registry, document, position, interaction)[document].mock_server_started
            == registry[document].mock_server_started,
{
}

/// The document with one interaction replaced.
pub open spec fn document_with(
    document: PactHandleInnerModel,
    position: u16,
    interaction: InteractionModel,
) -> PactHandleInnerModel {
    PactHandleInnerModel {
        pact: V4PactModel {
            interactions: document.pact.interactions.update(position - 1, interaction),
            ..document.pact
        },
        ..document
    }
}

/// The registry with one interaction replaced.
pub open spec fn registry_with(
    registry: RegistryModel,
    document: u16,
    position: u16,
    interaction: InteractionModel,
) -> RegistryModel {
    registry.insert(document, document_with(registry[document], position, interaction))
}

/// The document with one more interaction at its end.
pub open spec fn document_extended(
    document: PactHandleInnerModel,
    interaction: InteractionModel,
) -> PactHandleInnerModel {
    PactHandleInnerModel {
        pact: V4PactModel {
            interactions: document.pact.interactions.push(interaction),
            ..document.pact
        },
        ..document
    }
}

/// A handle to a document.
#[derive(Clone, Copy, Debug, PartialEq, Eq, Structural)]
pub struct PactHandle {
    pub pact_ref: u16,
}

/// A handle to an interaction of a document.
#[derive(Clone, Copy, Debug, PartialEq, Eq, Structural)]
pub struct InteractionHandle {
    pub interaction_ref: u32,
}

/// The half of an HTTP interaction that a setter addresses.
#[derive(Clone, Copy, Debug, PartialEq, Eq, Structural)]
pub enum InteractionPart {
    Request,
    Response,
}

/// A handle to a document of messages.
#[derive(Clone, Copy, Debug, PartialEq, Eq, Structural)]
pub struct MessagePactHandle {
    pub pact_ref: u16,
}

/// A handle to a message of a document.
#[derive(Clone, Copy, Debug, PartialEq, Eq, Structural)]
pub struct MessageHandle {
    pub interaction_ref: u32,
}

/// The number before `id`, in sixteen bits: zero steps back to the largest.
pub open spec fn previous(id: u16) -> u16 {
    if id == 0 {
        0xFFFF
    } else {
        (id - 1) as u16
    }
}

fn step_back(id: u16) -> (r: u16)
    ensures
        r == previous(id),
{
    if id == 0 {
        0xFFFF
    } else {
        id - 1
    }
}

fn pack(document: u16, position: u16) -> (packed: u32)
    ensures
        packed == compose(document, position),
{
    let high: u32 = document as u32;
    assert(high << 16 == high * 65536) by (bit_vector)
        requires
            high < 65536,
    ;
    (high << 16) + position as u32
}

fn unpack(packed: u32) -> (parts: (u16, u16))
    ensures
        parts.0 == document_of(packed),
        parts.1 == position_of(packed),
{
    assert(packed >> 16 == packed / 65536) by (bit_vector);
    assert(packed & 0x0000FFFF == packed % 65536) by (bit_vector);
    ((packed >> 16) as u16, (packed & 0x0000FFFF) as u16)
}

impl HandleRegistry {
    /// A registry without documents.
    pub fn new() -> (r: HandleRegistry)
        ensures
            r@ == Map::<u16, PactHandleInnerModel>::empty(),
    {
        let r = HandleRegistry { docs: HashMap::new() };
        assert(r@ =~= Map::<u16, PactHandleInnerModel>::empty());
        r
    }

    /// The number of documents held.
    pub fn len(&self) -> (n: usize)
        ensures
            n == self@.len(),
    {
        broadcast use vstd::std_specs::hash::group_hash_axioms;

        assert(self@.dom() =~= self.docs@.dom());
        self.docs.len()
    }

    /// Adds a draft document between `consumer` and `provider` under the next
    /// identifier, in place of any document that has it, and gives the
    /// identifier.
    pub fn create(&mut self, consumer: &str, provider: &str) -> (id: u16)
        ensures
            id == next_id(old(self)@),
            final(self)@ == old(self)@.insert(
                id,
                PactHandleInnerModel::initial(consumer@, provider@),
            ),
    {
        broadcast use vstd::std_specs::hash::group_hash_axioms;

        let n = self.len();
        let id = ((n % 65536 + 1) % 65536) as u16;
        let document = PactHandleInner::new(consumer, provider);
        self.docs.insert(id, document);
        assert(self@ =~= old(self)@.insert(id, document@));
        id
    }

    /// Removes the document `id`, and says whether there was one.
    pub fn delete(&mut self, id: u16) -> (existed: bool)
        ensures
            existed == old(self)@.contains_key(id),
            final(self)@ == old(self)@.remove(id),
    {
        broadcast use vstd::std_specs::hash::group_hash_axioms;

        let removed = self.docs.remove(&id);
        assert(self@ =~= old(self)@.remove(id));
        removed.is_some()
    }

    /// Whether the document `id` is held.
    pub fn contains(&self, id: u16) -> (r: bool)
        ensures
            r == self@.contains_key(id),
    {
        broadcast use vstd::std_specs::hash::group_hash_axioms;

        self.docs.contains_key(&id)
    }

    /// The document `id`, for reading.
    pub fn get(&self, id: u16) -> (r: Option<&PactHandleInner>)
        ensures
            match r {
                Some(document) => self@.contains_key(id) && self@[id] == document@,
                None => !self@.contains_key(id),
            },
    {
        broadcast use vstd::std_specs::hash::group_hash_axioms;

        self.docs.get(&id)
    }

    /// Takes the document `id` out of the registry, to be put back with
    /// [`HandleRegistry::put`].
    pub fn take(&mut self, id: u16) -> (r: Option<PactHandleInner>)
        ensures
            match r {
                Some(document) => old(self).docs@.contains_key(id) && old(self).docs@[id]
                    == document,
                None => !old(self).docs@.contains_key(id),
            },
            final(self).docs@ == old(self).docs@.remove(id),
            final(self)@ == old(self)@.remove(id),
    {
        broadcast use vstd::std_specs::hash::group_hash_axioms;

        let removed = self.docs.remove(&id);
        assert(self@ =~= old(self)@.remove(id));
        removed
    }

    /// Puts a document into the registry under `id`.
    pub fn put(&mut self, id: u16, document: PactHandleInner)
        ensures
            final(self).docs@ == old(self).docs@.insert(id, document),
            final(self)@ == old(self)@.insert(id, document@),
    {
        broadcast use vstd::std_specs::hash::group_hash_axioms;

        self.docs.insert(id, document);
        assert(self@ =~= old(self)@.insert(id, document@));
    }
    /// The interaction that an identifier and a position resolve to, for
    /// reading.
    pub fn interaction(&self, document: u16, position: u16) -> (r: Option<&Interaction>)
        ensures
            r.deep_view() == interaction_at(self@, document, position),
    {
        if position == 0 {
            return None;
        }
        match self.get(document) {
            Some(found) => {
                if (position as usize) <= found.pact.interactions.len() {
                    assert(found@.pact.interactions[position - 1] == found.pact.interactions@[position
                        - 1]@);
                    Some(&found.pact.interactions[(position - 1) as usize])
                } else {
                    None
                }
            },
            None => None,
        }
    }

    /// Whether the mock server of the document `id` has started; `false`
    /// where there is no such document.
    pub fn is_started(&self, id: u16) -> (r: bool)
        ensures
            r == (self@.contains_key(id) && self@[id].mock_server_started),
    {
        match self.get(id) {
            Some(found) => found.mock_server_started,
            None => false,
        }
    }

    /// Notes that the mock server of the document `id` has started: from now
    /// on the document is frozen. Says whether there is such a document.
    pub fn start_mock_server(&mut self, id: u16) -> (found: bool)
        ensures
            found == old(self)@.contains_key(id),
            final(self)@ == (if found {
                old(self)@.insert(
                    id,
                    PactHandleInnerModel { mock_server_started: true, ..old(self)@[id] },
                )
            } else {
                old(self)@
            }),
    {
        match self.take(id) {
            Some(mut document) => {
                document.mock_server_started = true;
                self.put(id, document);
                assert(self@ =~= old(self)@.insert(
                    id,
                    PactHandleInnerModel { mock_server_started: true, ..old(self)@[id] },
                ));
                true
            },
            None => {
                assert(self@ =~= old(self)@);
                false
            },
        }
    }

    /// Takes the document of an interaction out of the registry, where the
    /// identifier and the position resolve to an interaction, and gives the
    /// place of the interaction in the document. Leaves the registry alone
    /// where they do not. Position zero never resolves.
    pub fn checkout(&mut self, document: u16, position: u16) -> (r: Option<
        (PactHandleInner, usize),
    >)
        ensures
            match r {
                Some((taken, place)) => {
                    &&& interaction_at(old(self)@, document, position) is Some
                    &&& taken@ == old(self)@[document]
                    &&& place == position - 1
                    &&& place < taken.pact.interactions@.len()
                    &&& final(self)@ == old(self)@.remove(document)
                },
                None => {
                    &&& interaction_at(old(self)@, document, position) is None
                    &&& final(self)@ == old(self)@
                },
            },
    {
        if position == 0 {
            return None;
        }
        match self.take(document) {
            None => {
                assert(self@ =~= old(self)@);
                None
            },
            Some(taken) => {
                if (position as usize) <= taken.pact.interactions.len() {
                    Some((taken, (position - 1) as usize))
                } else {
                    self.put(document, taken);
                    assert(self@ =~= old(self)@);
                    None
                }
            },
        }
    }
}

impl PactHandle {
    /// Creates a document in the registry and gives a handle to it.
    pub fn new(registry: &mut HandleRegistry, consumer: &str, provider: &str) -> (handle:
        PactHandle)
        ensures
            handle.pact_ref == next_id(old(registry)@),
            final(registry)@ == old(registry)@.insert(
                handle.pact_ref,
                PactHandleInnerModel::initial(consumer@, provider@),
            ),
    {
        PactHandle { pact_ref: registry.create(consumer, provider) }
    }

    /// Runs `f` on the document of the handle and stores what `f` makes of
    /// it. Gives `None`, and leaves the registry alone, where the handle
    /// resolves to no document. `f` is also told the identifier less one.
    pub fn with_pact<R, F: FnOnce(u16, PactHandleInner) -> (PactHandleInner, R)>(
        &self,
        registry: &mut HandleRegistry,
        f: F,
    ) -> (r: Option<R>)
        requires
            old(registry).docs@.contains_key(self.pact_ref) ==> f.requires(
                (previous(self.pact_ref), old(registry).docs@[self.pact_ref]),
            ),
        ensures
            match r {
                Some(out) => {
                    &&& old(registry).docs@.contains_key(self.pact_ref)
                    &&& final(registry).docs@.contains_key(self.pact_ref)
                    &&& f.ensures(
                        (previous(self.pact_ref), old(registry).docs@[self.pact_ref]),
                        (final(registry).docs@[self.pact_ref], out),
                    )
                    &&& final(registry).docs@ == old(registry).docs@.insert(
                        self.pact_ref,
                        final(registry).docs@[self.pact_ref],
                    )
                },
                None => !old(registry).docs@.contains_key(self.pact_ref) && final(registry).docs@
                    == old(registry).docs@,
            },
    {
        match registry.take(self.pact_ref) {
            Some(document) => {
                let (after, out) = f(step_back(self.pact_ref), document);
                registry.put(self.pact_ref, after);
                assert(registry.docs@ =~= old(registry).docs@.insert(self.pact_ref, after));
                Some(out)
            },
            None => {
                assert(registry.docs@ =~= old(registry).docs@);
                None
            },
        }
    }
}

impl InteractionHandle {
    /// The identifier of the document that the handle belongs to.
    pub open spec fn document(self) -> u16 {
        document_of(self.interaction_ref)
    }

    /// The one-based position of the interaction in its document; zero for
    /// an interaction that was never created.
    pub open spec fn position(self) -> u16 {
        position_of(self.interaction_ref)
    }

    /// The handle to the interaction at the one-based position `interaction`
    /// of the document `pact`.
    pub fn new(pact: PactHandle, interaction: u16) -> (handle: InteractionHandle)
        ensures
            handle.interaction_ref == compose(pact.pact_ref, interaction),
            handle.document() == pact.pact_ref,
            handle.position() == interaction,
    {
        InteractionHandle { interaction_ref: pack(pact.pact_ref, interaction) }
    }

    /// The identifier of the document and the position of the interaction.
    pub fn parts(&self) -> (r: (u16, u16))
        ensures
            r.0 == self.document(),
            r.1 == self.position(),
    {
        unpack(self.interaction_ref)
    }
}

impl MessagePactHandle {
    /// Creates a document in the registry and gives a handle to it.
    pub fn new(registry: &mut HandleRegistry, consumer: &str, provider: &str) -> (handle:
        MessagePactHandle)
        ensures
            handle.pact_ref == next_id(old(registry)@),
            final(registry)@ == old(registry)@.insert(
                handle.pact_ref,
                PactHandleInnerModel::initial(consumer@, provider@),
            ),
    {
        MessagePactHandle { pact_ref: registry.create(consumer, provider) }
    }
}

impl MessageHandle {
    /// The identifier of the document that the handle belongs to.
    pub open spec fn document(self) -> u16 {
        document_of(self.interaction_ref)
    }

    /// The one-based position of the message in its document; zero for a
    /// message that was never created.
    pub open spec fn position(self) -> u16 {
        position_of(self.interaction_ref)
    }

    /// The handle to the message at the one-based position `message` of the
    /// document `pact`.
    pub fn new(pact: MessagePactHandle, message: u16) -> (handle: MessageHandle)
        ensures
            handle.interaction_ref == compose(pact.pact_ref, message),
            handle.document() == pact.pact_ref,
            handle.position() == message,
    {
        MessageHandle { interaction_ref: pack(pact.pact_ref, message) }
    }

    /// The handle to the message at the one-based position `message` of the
    /// document `pact`. A position that does not fit sixteen bits runs over
    /// into the identifier: the sum wraps in thirty-two bits.
    pub fn new_v4(pact: PactHandle, message: usize) -> (handle: MessageHandle)
        ensures
            handle.interaction_ref == compose_wrapping(pact.pact_ref, message),
            message <= 0xFFFF ==> handle.interaction_ref == compose(pact.pact_ref, message as u16),
    {
        let high: u32 = pact.pact_ref as u32;
        assert(high << 16 == high * 65536) by (bit_vector)
            requires
                high < 65536,
        ;
        let low: u32 = (message as u64 % 0x1_0000_0000) as u32;
        let sum: u64 = (high << 16) as u64 + low as u64;
        MessageHandle { interaction_ref: (sum % 0x1_0000_0000) as u32 }
    }

    /// The identifier of the document and the position of the message.
    pub fn parts(&self) -> (r: (u16, u16))
        ensures
            r.0 == self.document(),
            r.1 == self.position(),
    {
        unpack(self.interaction_ref)
    }
}

/// Whether an identifier and a position resolve to an interaction among the
/// documents as they are stored.
pub open spec fn stored_at(docs: Map<u16, PactHandleInner>, document: u16, position: u16) -> bool {
    docs.contains_key(document) && 1 <= position <= docs[document].pact.interactions@.len()
}

/// Runs `f` on the interaction at a place of a document and stores what `f`
/// makes of it; `f` is told the zero-based place and whether the document is
/// frozen. With `messages_only`, an interaction that is no message is left
/// alone. Gives `None`, and leaves the registry alone, where `f` was not
/// run.
fn with_stored_interaction<R, F: FnOnce(u16, bool, Interaction) -> (Interaction, R)>(
    registry: &mut HandleRegistry,
    document: u16,
    position: u16,
    messages_only: bool,
    f: F,
) -> (r: Option<R>)
    requires
        stored_at(old(registry).docs@, document, position) ==> f.requires(
            (
                (position - 1) as u16,
                old(registry).docs@[document].mock_server_started,
                old(registry).docs@[document].pact.interactions@[position - 1],
            ),
        ),
    ensures
        match r {
            Some(out) => {
                let before = old(registry).docs@[document];
                let after = final(registry).docs@[document];
                &&& stored_at(old(registry).docs@, document, position)
                &&& messages_only ==> before.pact.interactions@[position - 1]@.is_message()
                &&& final(registry).docs@ == old(registry).docs@.insert(document, after)
                &&& after.pact.interactions@.len() == before.pact.interactions@.len()
                &&& f.ensures(
                    (
                        (position - 1) as u16,
                        before.mock_server_started,
                        before.pact.interactions@[position - 1],
                    ),
                    (after.pact.interactions@[position - 1], out),
                )
                &&& after.pact.interactions@ == before.pact.interactions@.update(
                    position - 1,
                    after.pact.interactions@[position - 1],
                )
                &&& after.pact.consumer == before.pact.consumer
                &&& after.pact.provider == before.pact.provider
                &&& after.pact.metadata == before.pact.metadata
                &&& after.mock_server_started == before.mock_server_started
                &&& after.specification_version == before.specification_version
            },
            None => {
                &&& final(registry).docs@ == old(registry).docs@
                &&& !messages_only ==> !stored_at(old(registry).docs@, document, position)
                &&& messages_only && stored_at(old(registry).docs@, document, position)
                    ==> !old(registry).docs@[document].pact.interactions@[position - 1]@.is_message()
            },
        },
{
    if position == 0 {
        return None;
    }
    match registry.take(document) {
        None => {
            assert(registry.docs@ =~= old(registry).docs@);
            None
        },
        Some(mut taken) => {
            if (position as usize) <= taken.pact.interactions.len() && (
            !messages_only || taken.pact.interactions[(position - 1) as usize].is_message()) {
                let place = (position - 1) as usize;
                let ghost items = taken.pact.interactions@;
                let interaction = taken.pact.interactions.remove(place);
                let (changed, out) = f(position - 1, taken.mock_server_started, interaction);
                taken.pact.interactions.insert(place, changed);
                assert(taken.pact.interactions@ =~= items.update(place as int, changed));
                registry.put(document, taken);
                Some(out)
            } else {
                registry.put(document, taken);
                assert(registry.docs@ =~= old(registry).docs@);
                None
            }
        },
    }
}

impl InteractionHandle {
    /// Runs `f` on the document of the handle and stores what `f` makes of
    /// it. Gives `None`, and leaves the registry alone, where the handle
    /// belongs to no document. `f` is also told the identifier less one.
    pub fn with_pact<R, F: FnOnce(u16, PactHandleInner) -> (PactHandleInner, R)>(
        &self,
        registry: &mut HandleRegistry,
        f: F,
    ) -> (r: Option<R>)
        requires
            old(registry).docs@.contains_key(self.document()) ==> f.requires(
                (previous(self.document()), old(registry).docs@[self.document()]),
            ),
        ensures
            match r {
                Some(out) => {
                    &&& old(registry).docs@.contains_key(self.document())
                    &&& final(registry).docs@.contains_key(self.document())
                    &&& f.ensures(
                        (previous(self.document()), old(registry).docs@[self.document()]),
                        (final(registry).docs@[self.document()], out),
                    )
                    &&& final(registry).docs@ == old(registry).docs@.insert(
                        self.document(),
                        final(registry).docs@[self.document()],
                    )
                },
                None => {
                    &&& !old(registry).docs@.contains_key(self.document())
                    &&& final(registry).docs@ == old(registry).docs@
                },
            },
    {
        let (document, _) = self.parts();
        PactHandle { pact_ref: document }.with_pact(registry, f)
    }

    /// Runs `f` on the interaction of the handle and stores what `f` makes
    /// of it; `f` is told the zero-based place of the interaction and
    /// whether the document is frozen. Gives `None`, and leaves the registry
    /// alone, where the handle resolves to no interaction.
    pub fn with_interaction<R, F: FnOnce(u16, bool, Interaction) -> (Interaction, R)>(
        &self,
        registry: &mut HandleRegistry,
        f: F,
    ) -> (r: Option<R>)
        requires
            stored_at(old(registry).docs@, self.document(), self.position()) ==> f.requires(
                (
                    (self.position() - 1) as u16,
                    old(registry).docs@[self.document()].mock_server_started,
                    old(registry).docs@[self.document()].pact.interactions@[self.position() - 1],
                ),
            ),
        ensures
            r is Some == stored_at(old(registry).docs@, self.document(), self.position()),
            r is None ==> final(registry).docs@ == old(registry).docs@,
            r matches Some(out) ==> {
                let before = old(registry).docs@[self.document()];
                let after = final(registry).docs@[self.document()];
                &&& final(registry).docs@ == old(registry).docs@.insert(self.document(), after)
                &&& f.ensures(
                    (
                        (self.position() - 1) as u16,
                        before.mock_server_started,
                        before.pact.interactions@[self.position() - 1],
                    ),
                    (after.pact.interactions@[self.position() - 1], out),
                )
                &&& after.pact.interactions@ == before.pact.interactions@.update(
                    self.position() - 1,
                    after.pact.interactions@[self.position() - 1],
                )
                &&& after.pact.consumer == before.pact.consumer
                &&& after.pact.provider == before.pact.provider
                &&& after.pact.metadata == before.pact.metadata
                &&& after.mock_server_started == before.mock_server_started
                &&& after.specification_version == before.specification_version
            },
    {
        let (document, position) = self.parts();
        with_stored_interaction(registry, document, position, false, f)
    }
}

impl MessagePactHandle {
    /// Runs `f` on the document of the handle and stores what `f` makes of
    /// it; `f` is told the identifier less one and the specification version
    /// of the document. Gives `None`, and leaves the registry alone, where
    /// the handle resolves to no document.
    pub fn with_pact<R, F: FnOnce(u16, V4Pact, PactSpecification) -> (V4Pact, R)>(
        &self,
        registry: &mut HandleRegistry,
        f: F,
    ) -> (r: Option<R>)
        requires
            old(registry).docs@.contains_key(self.pact_ref) ==> f.requires(
                (
                    previous(self.pact_ref),
                    old(registry).docs@[self.pact_ref].pact,
                    old(registry).docs@[self.pact_ref].specification_version,
                ),
            ),
        ensures
            r is Some == old(registry).docs@.contains_key(self.pact_ref),
            r is None ==> final(registry).docs@ == old(registry).docs@,
            r matches Some(out) ==> {
                let before = old(registry).docs@[self.pact_ref];
                let after = final(registry).docs@[self.pact_ref];
                &&& final(registry).docs@ == old(registry).docs@.insert(self.pact_ref, after)
                &&& f.ensures(
                    (previous(self.pact_ref), before.pact, before.specification_version),
                    (after.pact, out),
                )
                &&& after.mock_server_started == before.mock_server_started
                &&& after.specification_version == before.specification_version
            },
    {
        stored_pact(registry, self.pact_ref, f)
    }
}

fn stored_pact<R, F: FnOnce(u16, V4Pact, PactSpecification) -> (V4Pact, R)>(
    registry: &mut HandleRegistry,
    document: u16,
    f: F,
) -> (r: Option<R>)
    requires
        old(registry).docs@.contains_key(document) ==> f.requires(
            (
                previous(document),
                old(registry).docs@[document].pact,
                old(registry).docs@[document].specification_version,
            ),
        ),
    ensures
        r is Some == old(registry).docs@.contains_key(document),
        r is None ==> final(registry).docs@ == old(registry).docs@,
        r matches Some(out) ==> {
            let before = old(registry).docs@[document];
            let after = final(registry).docs@[document];
            &&& final(registry).docs@ == old(registry).docs@.insert(document, after)
            &&& f.ensures(
                (previous(document), before.pact, before.specification_version),
                (after.pact, out),
            )
            &&& after.mock_server_started == before.mock_server_started
            &&& after.specification_version == before.specification_version
        },
{
    match registry.take(document) {
        None => {
            assert(registry.docs@ =~= old(registry).docs@);
            None
        },
        Some(taken) => {
            let started = taken.mock_server_started;
            let version = taken.specification_version;
            let (pact, out) = f(step_back(document), taken.pact, version);
            registry.put(
                document,
                PactHandleInner {
                    pact,
                    mock_server_started: started,
                    specification_version: version,
                },
            );
            Some(out)
        },
    }
}

impl MessageHandle {
    /// Runs `f` on the document of the handle and stores what `f` makes of
    /// it; `f` is told the identifier less one and the specification version
    /// of the document. Gives `None`, and leaves the registry alone, where
    /// the handle belongs to no document.
    pub fn with_pact<R, F: FnOnce(u16, V4Pact, PactSpecification) -> (V4Pact, R)>(
        &self,
        registry: &mut HandleRegistry,
        f: F,
    ) -> (r: Option<R>)
        requires
            old(registry).docs@.contains_key(self.document()) ==> f.requires(
                (
                    previous(self.document()),
                    old(registry).docs@[self.document()].pact,
                    old(registry).docs@[self.document()].specification_version,
                ),
            ),
        ensures
            r is Some == old(registry).docs@.contains_key(self.document()),
            r is None ==> final(registry).docs@ == old(registry).docs@,
            r matches Some(out) ==> {
                let before = old(registry).docs@[self.document()];
                let after = final(registry).docs@[self.document()];
                &&& final(registry).docs@ == old(registry).docs@.insert(self.document(), after)
                &&& f.ensures(
                    (previous(self.document()), before.pact, before.specification_version),
                    (after.pact, out),
                )
                &&& after.mock_server_started == before.mock_server_started
                &&& after.specification_version == before.specification_version
            },
    {
        let (document, _) = self.parts();
        stored_pact(registry, document, f)
    }

    /// Runs `f` on the message of the handle and stores what `f` makes of
    /// it; `f` is told the zero-based place of the message and whether the
    /// document is frozen. Gives `None`, and leaves the registry alone,
    /// where the handle resolves to no message.
    pub fn with_message<R, F: FnOnce(u16, bool, Interaction) -> (Interaction, R)>(
        &self,
        registry: &mut HandleRegistry,
        f: F,
    ) -> (r: Option<R>)
        requires
            stored_at(old(registry).docs@, self.document(), self.position()) ==> f.requires(
                (
                    (self.position() - 1) as u16,
                    old(registry).docs@[self.document()].mock_server_started,
                    old(registry).docs@[self.document()].pact.interactions@[self.position() - 1],
                ),
            ),
        ensures
            r is Some == (stored_at(old(registry).docs@, self.document(), self.position())
                && old(registry).docs@[self.document()].pact.interactions@[self.position()
                - 1]@.is_message()),
            r is None ==> final(registry).docs@ == old(registry).docs@,
            r matches Some(out) ==> {
                let before = old(registry).docs@[self.document()];
                let after = final(registry).docs@[self.document()];
                &&& final(registry).docs@ == old(registry).docs@.insert(self.document(), after)
                &&& f.ensures(
                    (
                        (self.position() - 1) as u16,
                        before.mock_server_started,
                        before.pact.interactions@[self.position() - 1],
                    ),
                    (after.pact.interactions@[self.position() - 1], out),
                )
                &&& after.pact.interactions@ == before.pact.interactions@.update(
                    self.position() - 1,
                    after.pact.interactions@[self.position() - 1],
                )
                &&& after.pact.consumer == before.pact.consumer
                &&& after.pact.provider == before.pact.provider
                &&& after.pact.metadata == before.pact.metadata
                &&& after.mock_server_started == before.mock_server_started
                &&& after.specification_version == before.specification_version
            },
    {
        let (document, position) = self.parts();
        with_stored_interaction(registry, document, position, true, f)
    }
}

} // verus!
