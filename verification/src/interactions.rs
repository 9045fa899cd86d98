//! Creating documents and interactions, and the setters that apply to every
//! kind of interaction and to the document itself.
use crate::dict::Dict;
use crate::handles::{
    compose, document_extended, interaction_at, next_id, registry_with, HandleRegistry,
    InteractionHandle, MessageHandle, MessagePactHandle, PactHandle, RegistryModel,
};
use crate::json::{json_parse, lemma_object_view, Json, JsonField, JsonModel};
use crate::model::{
    Interaction, InteractionModel, PactHandleInner, PactHandleInnerModel,
    PactSpecification, ProviderState, ProviderStateModel, V4PactModel,
};
use crate::text::{
    first_index, given, given_or, lemma_first_index_is, lemma_first_index_none, read, read_or,
};
use vstd::prelude::*;

verus! {

/// The names of a list of provider states.
pub open spec fn state_names(states: Seq<ProviderStateModel>) -> Seq<Seq<char>> {
    states.map_values(|s: ProviderStateModel| s.name)
}

/// The value that the text of a parameter stands for: the JSON it parses
/// to, or the text itself where it is no JSON.
pub open spec fn param_value(value: Seq<char>) -> JsonModel {
    match json_parse(value) {
        Some(j) => j,
        None => JsonModel::String(value),
    }
}

/// The states after a state without parameters has been added.
pub open spec fn with_state(states: Seq<ProviderStateModel>, description: Seq<char>) -> Seq<
    ProviderStateModel,
> {
    states.push(ProviderStateModel { name: description, params: Map::empty() })
}

/// The states after a parameter has been given to the state `description`:
/// the first state of that name gets it, or a new state is added that has
/// only this parameter.
pub open spec fn with_param(
    states: Seq<ProviderStateModel>,
    description: Seq<char>,
    name: Seq<char>,
    value: JsonModel,
) -> Seq<ProviderStateModel> {
    match first_index(state_names(states), description) {
        Some(i) => if 0 <= i < states.len() {
            states.update(
                i,
                ProviderStateModel { params: states[i].params.insert(name, value), ..states[i] },
            )
        } else {
            states
        },
        None => states.push(
            ProviderStateModel {
                name: description,
                params: Map::<Seq<char>, JsonModel>::empty().insert(name, value),
            },
        ),
    }
}

/// A change to an interaction of any kind.
#[derive(Debug)]
pub enum InteractionEdit<'a> {
    /// Gives the interaction another description.
    Description(&'a str),
    /// Adds a provider state without parameters.
    Given(&'a str),
    /// Gives a parameter to a provider state.
    GivenWithParam { description: &'a str, name: &'a str, value: &'a str },
}

impl InteractionModel {
    /// The interaction after an edit.
    pub open spec fn edited(self, edit: InteractionEdit<'_>) -> InteractionModel {
        match edit {
            InteractionEdit::Description(description) => self.with_description(description@),
            InteractionEdit::Given(description) => self.with_provider_states(
                with_state(self.provider_states(), description@),
            ),
            InteractionEdit::GivenWithParam { description, name, value } => self.with_provider_states(
                with_param(self.provider_states(), description@, name@, param_value(value@)),
            ),
        }
    }
}

/// The value that the text of a parameter stands for.
pub fn parse_param(value: &str) -> (r: Json)
    ensures
        r@ == param_value(value@),
{
    match Json::parse(value) {
        Some(j) => j,
        None => Json::string(value),
    }
}

/// Finds the first state called `description`.
pub fn find_state(states: &Vec<ProviderState>, description: &str) -> (r: Option<usize>)
    ensures
        match r {
            Some(i) => i < states@.len() && first_index(
                state_names(states.deep_view()),
                description@,
            ) == Some(i as int),
            None => first_index(state_names(states.deep_view()), description@) is None,
        },
{
    let wanted: String = description.to_owned();
    let ghost names = state_names(states.deep_view());
    let mut i: usize = 0;
    while i < states.len()
        invariant
            i <= states.len(),
            wanted@ == description@,
            names == state_names(states.deep_view()),
            forall|j: int| 0 <= j < i ==> names[j] != description@,
        decreases states.len() - i,
    {
        assert(names[i as int] == states@[i as int].name@);
        if states[i].name == wanted {
            proof {
                lemma_first_index_is(names, description@, i as int);
            }
            return Some(i);
        }
        i += 1;
    }
    proof {
        lemma_first_index_none(names, description@);
    }
    None
}

/// Adds a state without parameters.
pub fn add_state(states: &mut Vec<ProviderState>, description: &str)
    ensures
        final(states).deep_view() == with_state(old(states).deep_view(), description@),
{
    states.push(ProviderState::default(description));
    assert(states.deep_view() =~= with_state(old(states).deep_view(), description@));
}

/// Gives a parameter to the state `description`.
pub fn add_param(states: &mut Vec<ProviderState>, description: &str, name: &str, value: &str)
    ensures
        final(states).deep_view() == with_param(
            old(states).deep_view(),
            description@,
            name@,
            param_value(value@),
        ),
{
    let parsed = parse_param(value);
    let ghost before = states.deep_view();
    match find_state(states, description) {
        Some(i) => {
            states[i].params.insert(name.to_owned(), parsed);
            assert(states.deep_view() =~= with_param(
                before,
                description@,
                name@,
                param_value(value@),
            ));
        },
        None => {
            let mut params: Dict<String, Json> = Dict::new();
            params.insert(name.to_owned(), parsed);
            states.push(ProviderState { name: description.to_owned(), params });
            assert(states.deep_view() =~= with_param(
                before,
                description@,
                name@,
                param_value(value@),
            ));
        },
    }
}

impl Interaction {
    /// Adds a provider state without parameters.
    pub fn given(&mut self, description: &str)
        ensures
            final(self)@ == old(self)@.with_provider_states(
                with_state(old(self)@.provider_states(), description@),
            ),
    {
        match self {
            Interaction::Http(i) => add_state(&mut i.provider_states, description),
            Interaction::AsyncMessage(i) => add_state(&mut i.provider_states, description),
            Interaction::SyncMessage(i) => add_state(&mut i.provider_states, description),
        }
    }

    /// Gives a parameter to a provider state.
    pub fn given_with_param(&mut self, description: &str, name: &str, value: &str)
        ensures
            final(self)@ == old(self)@.with_provider_states(
                with_param(
                    old(self)@.provider_states(),
                    description@,
                    name@,
                    param_value(value@),
                ),
            ),
    {
        match self {
            Interaction::Http(i) => add_param(&mut i.provider_states, description, name, value),
            Interaction::AsyncMessage(i) => add_param(
                &mut i.provider_states,
                description,
                name,
                value,
            ),
            Interaction::SyncMessage(i) => add_param(
                &mut i.provider_states,
                description,
                name,
                value,
            ),
        }
    }

    /// Applies an edit.
    pub fn apply(&mut self, edit: InteractionEdit<'_>)
        ensures
            final(self)@ == old(self)@.edited(edit),
    {
        match edit {
            InteractionEdit::Description(description) => self.set_description(description),
            InteractionEdit::Given(description) => self.given(description),
            InteractionEdit::GivenWithParam { description, name, value } => self.given_with_param(
                description,
                name,
                value,
            ),
        }
    }
}

/// What a setter on an interaction of any kind does. Where the identifier
/// and the position resolve to an interaction, the interaction becomes
/// `changed`, and the setter reports whether the document was still a draft.
/// Anywhere else nothing changes and the setter reports `false`.
pub open spec fn interaction_updated(
    before: RegistryModel,
    after: RegistryModel,
    ok: bool,
    document: u16,
    position: u16,
    changed: InteractionModel,
) -> bool {
    if interaction_at(before, document, position) is Some {
        &&& after == registry_with(before, document, position, changed)
        &&& ok == !before[document].mock_server_started
    } else {
        after == before && !ok
    }
}

/// A setter on position zero changes nothing and reports `false`, whatever
/// it was asked to set.
pub proof fn lemma_position_zero_fails(
    before: RegistryModel,
    after: RegistryModel,
    ok: bool,
    document: u16,
    changed: InteractionModel,
)
    requires
        interaction_updated(before, after, ok, document, 0, changed),
    ensures
        !ok,
        after == before,
{
}

/// A setter on a frozen document reports `false` and changes the document
/// all the same.
pub proof fn lemma_frozen_interaction_still_changes(
    before: RegistryModel,
    after: RegistryModel,
    ok: bool,
    document: u16,
    position: u16,
    changed: InteractionModel,
)
    requires
        interaction_at(before, document, position) is Some,
        before[document].mock_server_started,
        interaction_updated(before, after, ok, document, position, changed),
    ensures
        !ok,
        interaction_at(after, document, position) == Some(changed),
        after[document].mock_server_started,
{
}

/// Applies an edit to the interaction that an identifier and a position
/// resolve to, and reports whether the document was still a draft. Where
/// they resolve to nothing, nothing changes and the report is `false`.
pub fn edit_interaction(
    registry: &mut HandleRegistry,
    document: u16,
    position: u16,
    edit: InteractionEdit<'_>,
) -> (ok: bool)
    ensures
        interaction_updated(
            old(registry)@,
            final(registry)@,
            ok,
            document,
            position,
            interaction_at(old(registry)@, document, position).unwrap().edited(edit),
        ),
{
    match registry.checkout(document, position) {
        None => false,
        Some((mut taken, place)) => {
            let started = taken.mock_server_started;
            let ghost before = taken@;
            let ghost items = taken.pact.interactions@;
            taken.pact.interactions[place].apply(edit);
            proof {
                assert(before.pact.interactions[place as int] == items[place as int]@);
                assert(taken@.pact.interactions =~= before.pact.interactions.update(
                    place as int,
                    before.pact.interactions[place as int].edited(edit),
                ));
            }
            registry.put(document, taken);
            assert(registry@ =~= registry_with(
                old(registry)@,
                document,
                position,
                before.pact.interactions[place as int].edited(edit),
            ));
            !started
        },
    }
}

/// Gives an interaction another description. Without a description nothing
/// is set.
pub fn pactffi_upon_receiving(
    registry: &mut HandleRegistry,
    interaction: InteractionHandle,
    description: Option<&str>,
) -> (ok: bool)
    ensures
        match given(description) {
            Some(d) => interaction_updated(
                old(registry)@,
                final(registry)@,
                ok,
                interaction.document(),
                interaction.position(),
                interaction_at(
                    old(registry)@,
                    interaction.document(),
                    interaction.position(),
                ).unwrap().with_description(d),
            ),
            None => final(registry)@ == old(registry)@ && !ok,
        },
{
    match read(description) {
        Some(description) => {
            let (document, position) = interaction.parts();
            edit_interaction(
                registry,
                document,
                position,
                InteractionEdit::Description(description),
            )
        },
        None => false,
    }
}

/// Adds a provider state without parameters to an interaction. Without a
/// description nothing is added.
pub fn pactffi_given(
    registry: &mut HandleRegistry,
    interaction: InteractionHandle,
    description: Option<&str>,
) -> (ok: bool)
    ensures
        match given(description) {
            Some(d) => {
                let found = interaction_at(
                    old(registry)@,
                    interaction.document(),
                    interaction.position(),
                ).unwrap();
                interaction_updated(
                    old(registry)@,
                    final(registry)@,
                    ok,
                    interaction.document(),
                    interaction.position(),
                    found.with_provider_states(with_state(found.provider_states(), d)),
                )
            },
            None => final(registry)@ == old(registry)@ && !ok,
        },
{
    match read(description) {
        Some(description) => {
            let (document, position) = interaction.parts();
            edit_interaction(registry, document, position, InteractionEdit::Given(description))
        },
        None => false,
    }
}

/// Gives a parameter to a provider state of an interaction.
///
/// The first state called `description` gets the parameter, in place of any
/// parameter of that name; where there is no such state, one is added. The
/// value is read as JSON, and taken as a text where it is none; a missing
/// value counts as the empty text. Without a description or a name nothing
/// is set.
pub fn pactffi_given_with_param(
    registry: &mut HandleRegistry,
    interaction: InteractionHandle,
    description: Option<&str>,
    name: Option<&str>,
    value: Option<&str>,
) -> (ok: bool)
    ensures
        match (given(description), given(name)) {
            (Some(d), Some(n)) => {
                let found = interaction_at(
                    old(registry)@,
                    interaction.document(),
                    interaction.position(),
                ).unwrap();
                interaction_updated(
                    old(registry)@,
                    final(registry)@,
                    ok,
                    interaction.document(),
                    interaction.position(),
                    found.with_provider_states(
                        with_param(
                            found.provider_states(),
                            d,
                            n,
                            param_value(given_or(value, Seq::empty())),
                        ),
                    ),
                )
            },
            _ => final(registry)@ == old(registry)@ && !ok,
        },
{
    proof {
        reveal_strlit("");
        assert(""@ =~= Seq::<char>::empty());
    }
    match (read(description), read(name)) {
        (Some(description), Some(name)) => {
            let value = read_or(value, "");
            let (document, position) = interaction.parts();
            edit_interaction(
                registry,
                document,
                position,
                InteractionEdit::GivenWithParam { description, name, value },
            )
        },
        _ => false,
    }
}

/// The position that a document gives its next interaction, in sixteen
/// bits: one more than the number it holds.
pub open spec fn next_position(document: PactHandleInnerModel) -> u16 {
    ((document.pact.interactions.len() + 1) % 65536) as u16
}

/// What creating an interaction does. With an interaction to add and a
/// document to add it to, the document is extended by it and `position` is
/// its place. Otherwise nothing changes and `position` is zero.
pub open spec fn interaction_added(
    before: RegistryModel,
    after: RegistryModel,
    position: u16,
    document: u16,
    added: Option<InteractionModel>,
) -> bool {
    match added {
        Some(interaction) => if before.contains_key(document) {
            &&& after == before.insert(document, document_extended(before[document], interaction))
            &&& position == next_position(before[document])
        } else {
            after == before && position == 0
        },
        None => after == before && position == 0,
    }
}

/// Adds an interaction at the end of a document and gives the number of
/// interactions that the document then holds; `None`, and no change, where
/// there is no such document.
pub fn add_interaction(registry: &mut HandleRegistry, document: u16, interaction: Interaction) -> (r:
    Option<usize>)
    ensures
        match r {
            Some(count) => {
                &&& old(registry)@.contains_key(document)
                &&& count == old(registry)@[document].pact.interactions.len() + 1
                &&& final(registry)@ == old(registry)@.insert(
                    document,
                    document_extended(old(registry)@[document], interaction@),
                )
            },
            None => !old(registry)@.contains_key(document) && final(registry)@ == old(registry)@,
        },
{
    match registry.take(document) {
        None => {
            assert(registry@ =~= old(registry)@);
            None
        },
        Some(mut taken) => {
            let ghost before = taken@;
            taken.pact.interactions.push(interaction);
            assert(taken@.pact.interactions =~= before.pact.interactions.push(interaction@));
            let count = taken.pact.interactions.len();
            registry.put(document, taken);
            assert(registry@ =~= old(registry)@.insert(
                document,
                document_extended(old(registry)@[document], interaction@),
            ));
            Some(count)
        },
    }
}

fn position_of_count(count: Option<usize>) -> (position: u16)
    ensures
        position == (match count {
            Some(c) => (c % 65536) as u16,
            None => 0u16,
        }),
{
    match count {
        Some(c) => (c % 65536) as u16,
        None => 0,
    }
}

/// Creates a document and gives a handle to it. A missing consumer counts
/// as `Consumer`, a missing provider as `Provider`.
pub fn pactffi_new_pact(
    registry: &mut HandleRegistry,
    consumer_name: Option<&str>,
    provider_name: Option<&str>,
) -> (handle: PactHandle)
    ensures
        handle.pact_ref == next_id(old(registry)@),
        final(registry)@ == old(registry)@.insert(
            handle.pact_ref,
            PactHandleInnerModel::initial(
                given_or(consumer_name, "Consumer"@),
                given_or(provider_name, "Provider"@),
            ),
        ),
{
    let consumer = read_or(consumer_name, "Consumer");
    let provider = read_or(provider_name, "Provider");
    PactHandle::new(registry, consumer, provider)
}

/// Creates a document of messages and gives a handle to it. A missing
/// consumer counts as `Consumer`, a missing provider as `Provider`.
pub fn pactffi_new_message_pact(
    registry: &mut HandleRegistry,
    consumer_name: Option<&str>,
    provider_name: Option<&str>,
) -> (handle: MessagePactHandle)
    ensures
        handle.pact_ref == next_id(old(registry)@),
        final(registry)@ == old(registry)@.insert(
            handle.pact_ref,
            PactHandleInnerModel::initial(
                given_or(consumer_name, "Consumer"@),
                given_or(provider_name, "Provider"@),
            ),
        ),
{
    let consumer = read_or(consumer_name, "Consumer");
    let provider = read_or(provider_name, "Provider");
    MessagePactHandle::new(registry, consumer, provider)
}

/// Adds an HTTP interaction to a document and gives a handle to it. Without
/// a description, or without the document, nothing is added and the handle
/// has position zero.
pub fn pactffi_new_interaction(
    registry: &mut HandleRegistry,
    pact: PactHandle,
    description: Option<&str>,
) -> (handle: InteractionHandle)
    ensures
        handle.document() == pact.pact_ref,
        interaction_added(
            old(registry)@,
            final(registry)@,
            handle.position(),
            pact.pact_ref,
            match given(description) {
                Some(d) => Some(InteractionModel::http(d)),
                None => None,
            },
        ),
{
    let count = match read(description) {
        Some(description) => add_interaction(
            registry,
            pact.pact_ref,
            Interaction::http(description),
        ),
        None => None,
    };
    InteractionHandle::new(pact, position_of_count(count))
}

/// Adds an asynchronous message to a document and gives an interaction
/// handle to it. Without a description, or without the document, nothing is
/// added and the handle has position zero.
pub fn pactffi_new_message_interaction(
    registry: &mut HandleRegistry,
    pact: PactHandle,
    description: Option<&str>,
) -> (handle: InteractionHandle)
    ensures
        handle.document() == pact.pact_ref,
        interaction_added(
            old(registry)@,
            final(registry)@,
            handle.position(),
            pact.pact_ref,
            match given(description) {
                Some(d) => Some(InteractionModel::async_message(d)),
                None => None,
            },
        ),
{
    let count = match read(description) {
        Some(description) => add_interaction(
            registry,
            pact.pact_ref,
            Interaction::async_message(description),
        ),
        None => None,
    };
    InteractionHandle::new(pact, position_of_count(count))
}

/// Adds a synchronous message exchange to a document and gives an
/// interaction handle to it. Without a description, or without the document,
/// nothing is added and the handle has position zero.
pub fn pactffi_new_sync_message_interaction(
    registry: &mut HandleRegistry,
    pact: PactHandle,
    description: Option<&str>,
) -> (handle: InteractionHandle)
    ensures
        handle.document() == pact.pact_ref,
        interaction_added(
            old(registry)@,
            final(registry)@,
            handle.position(),
            pact.pact_ref,
            match given(description) {
                Some(d) => Some(InteractionModel::sync_message(d)),
                None => None,
            },
        ),
{
    let count = match read(description) {
        Some(description) => add_interaction(
            registry,
            pact.pact_ref,
            Interaction::sync_message(description),
        ),
        None => None,
    };
    InteractionHandle::new(pact, position_of_count(count))
}

/// Adds an asynchronous message to a document of messages and gives a
/// handle to it. Without a description, or without the document, nothing is
/// added and the handle has position zero.
pub fn pactffi_new_message(
    registry: &mut HandleRegistry,
    pact: MessagePactHandle,
    description: Option<&str>,
) -> (handle: MessageHandle)
    ensures
        handle.document() == pact.pact_ref,
        interaction_added(
            old(registry)@,
            final(registry)@,
            handle.position(),
            pact.pact_ref,
            match given(description) {
                Some(d) => Some(InteractionModel::async_message(d)),
                None => None,
            },
        ),
{
    let count = match read(description) {
        Some(description) => add_interaction(
            registry,
            pact.pact_ref,
            Interaction::async_message(description),
        ),
        None => None,
    };
    MessageHandle::new(pact, position_of_count(count))
}

/// Adds an asynchronous message to a document and gives a message handle to
/// it. Without a description, or without the document, nothing is added and
/// the handle has position zero. The position is not cut to sixteen bits: in
/// a document of more than 65535 interactions it runs over into the
/// identifier.
pub fn pactffi_new_async_message(
    registry: &mut HandleRegistry,
    pact: PactHandle,
    description: Option<&str>,
) -> (handle: MessageHandle)
    ensures
        match given(description) {
            Some(d) => if old(registry)@.contains_key(pact.pact_ref) {
                &&& final(registry)@ == old(registry)@.insert(
                    pact.pact_ref,
                    document_extended(
                        old(registry)@[pact.pact_ref],
                        InteractionModel::async_message(d),
                    ),
                )
                &&& handle.interaction_ref == crate::handles::compose_wrapping(
                    pact.pact_ref,
                    (old(registry)@[pact.pact_ref].pact.interactions.len() + 1) as usize,
                )
            } else {
                final(registry)@ == old(registry)@ && handle.interaction_ref == compose(
                    pact.pact_ref,
                    0,
                )
            },
            None => final(registry)@ == old(registry)@ && handle.interaction_ref == compose(
                pact.pact_ref,
                0,
            ),
        },
{
    let count = match read(description) {
        Some(description) => add_interaction(
            registry,
            pact.pact_ref,
            Interaction::async_message(description),
        ),
        None => None,
    };
    match count {
        Some(c) => MessageHandle::new_v4(pact, c),
        None => MessageHandle::new_v4(pact, 0),
    }
}

/// The document with another specification version.
pub open spec fn with_specification(
    document: PactHandleInnerModel,
    version: PactSpecification,
) -> PactHandleInnerModel {
    PactHandleInnerModel { specification_version: version, ..document }
}

/// The document after a metadata entry has been set: the namespace holds an
/// object with the one member `name`; without a namespace nothing changes.
pub open spec fn with_metadata(
    document: PactHandleInnerModel,
    namespace: Seq<char>,
    name: Seq<char>,
    value: Seq<char>,
) -> PactHandleInnerModel {
    if namespace.len() == 0 {
        document
    } else {
        PactHandleInnerModel {
            pact: V4PactModel {
                metadata: document.pact.metadata.insert(
                    namespace,
                    JsonModel::Object(seq![(name, JsonModel::String(value))]),
                ),
                ..document.pact
            },
            ..document
        }
    }
}

/// What a setter on a document does. Where the document exists, it becomes
/// `changed`, and the setter reports whether it was still a draft. Anywhere
/// else nothing changes and the setter reports `false`.
pub open spec fn document_updated(
    before: RegistryModel,
    after: RegistryModel,
    ok: bool,
    document: u16,
    changed: PactHandleInnerModel,
) -> bool {
    if before.contains_key(document) {
        after == before.insert(document, changed) && ok == !before[document].mock_server_started
    } else {
        after == before && !ok
    }
}

/// Sets the specification version that a document will be written to.
pub fn pactffi_with_specification(
    registry: &mut HandleRegistry,
    pact: PactHandle,
    version: PactSpecification,
) -> (ok: bool)
    ensures
        document_updated(
            old(registry)@,
            final(registry)@,
            ok,
            pact.pact_ref,
            with_specification(old(registry)@[pact.pact_ref], version),
        ),
{
    match registry.take(pact.pact_ref) {
        None => {
            assert(registry@ =~= old(registry)@);
            false
        },
        Some(mut taken) => {
            taken.specification_version = version;
            let ok = !taken.mock_server_started;
            registry.put(pact.pact_ref, taken);
            assert(registry@ =~= old(registry)@.insert(
                pact.pact_ref,
                with_specification(old(registry)@[pact.pact_ref], version),
            ));
            ok
        },
    }
}

fn set_metadata(document: &mut PactHandleInner, namespace: &str, name: &str, value: &str)
    ensures
        final(document)@ == with_metadata(old(document)@, namespace@, name@, value@),
{
    if namespace.unicode_len() != 0 {
        let mut members: Vec<JsonField> = Vec::new();
        members.push(JsonField { name: name.to_owned(), value: Json::string(value) });
        proof {
            lemma_object_view(members);
            assert(members.deep_view() =~= seq![(name@, JsonModel::String(value@))]);
        }
        document.pact.metadata.insert(namespace.to_owned(), Json::Object(members));
    }
}

/// Sets a metadata entry of a document: the namespace is given an object
/// with the one member `name`, in place of what it held. Missing texts
/// count as empty, and without a namespace nothing is set.
pub fn pactffi_with_pact_metadata(
    registry: &mut HandleRegistry,
    pact: PactHandle,
    namespace: Option<&str>,
    name: Option<&str>,
    value: Option<&str>,
) -> (ok: bool)
    ensures
        document_updated(
            old(registry)@,
            final(registry)@,
            ok,
            pact.pact_ref,
            with_metadata(
                old(registry)@[pact.pact_ref],
                given_or(namespace, Seq::empty()),
                given_or(name, Seq::empty()),
                given_or(value, Seq::empty()),
            ),
        ),
{
    proof {
        reveal_strlit("");
        assert(""@ =~= Seq::<char>::empty());
    }
    match registry.take(pact.pact_ref) {
        None => {
            assert(registry@ =~= old(registry)@);
            false
        },
        Some(mut taken) => {
            set_metadata(&mut taken, read_or(namespace, ""), read_or(name, ""), read_or(value, ""));
            let ok = !taken.mock_server_started;
            registry.put(pact.pact_ref, taken);
            assert(registry@ =~= old(registry)@.insert(pact.pact_ref, taken@));
            ok
        },
    }
}

/// Sets a metadata entry of a document of messages, as
/// [`pactffi_with_pact_metadata`] does, and reports nothing.
pub fn pactffi_with_message_pact_metadata(
    registry: &mut HandleRegistry,
    pact: MessagePactHandle,
    namespace: Option<&str>,
    name: Option<&str>,
    value: Option<&str>,
)
    ensures
        final(registry)@ == (if old(registry)@.contains_key(pact.pact_ref) {
            old(registry)@.insert(
                pact.pact_ref,
                with_metadata(
                    old(registry)@[pact.pact_ref],
                    given_or(namespace, Seq::empty()),
                    given_or(name, Seq::empty()),
                    given_or(value, Seq::empty()),
                ),
            )
        } else {
            old(registry)@
        }),
{
    let _ = pactffi_with_pact_metadata(
        registry,
        PactHandle { pact_ref: pact.pact_ref },
        namespace,
        name,
        value,
    );
}

/// Deletes a document. Gives 0 where there was one and 1 where there was
/// none.
pub fn pactffi_free_pact_handle(registry: &mut HandleRegistry, pact: PactHandle) -> (status: u32)
    ensures
        final(registry)@ == old(registry)@.remove(pact.pact_ref),
        status == (if old(registry)@.contains_key(pact.pact_ref) {
            0u32
        } else {
            1u32
        }),
{
    if registry.delete(pact.pact_ref) {
        0
    } else {
        1
    }
}

/// Deletes a document of messages. Gives 0 where there was one and 1 where
/// there was none.
pub fn pactffi_free_message_pact_handle(
    registry: &mut HandleRegistry,
    pact: MessagePactHandle,
) -> (status: u32)
    ensures
        final(registry)@ == old(registry)@.remove(pact.pact_ref),
        status == (if old(registry)@.contains_key(pact.pact_ref) {
            0u32
        } else {
            1u32
        }),
{
    if registry.delete(pact.pact_ref) {
        0
    } else {
        1
    }
}

/// The comment under which the name of a test is kept.
pub open spec fn test_name_key() -> Seq<char> {
    "testname"@
}

/// The interaction with a comment set.
pub open spec fn with_comment(
    interaction: InteractionModel,
    key: Seq<char>,
    value: JsonModel,
) -> InteractionModel {
    match interaction {
        InteractionModel::Http(i) => InteractionModel::Http(
            crate::model::SynchronousHttpModel { comments: i.comments.insert(key, value), ..i },
        ),
        InteractionModel::AsyncMessage(i) => InteractionModel::AsyncMessage(
            crate::model::AsynchronousMessageModel { comments: i.comments.insert(key, value), ..i },
        ),
        InteractionModel::SyncMessage(i) => InteractionModel::SyncMessage(
            crate::model::SynchronousMessageModel { comments: i.comments.insert(key, value), ..i },
        ),
    }
}

impl Interaction {
    /// Sets a comment.
    pub fn set_comment(&mut self, key: &str, value: Json)
        ensures
            final(self)@ == with_comment(old(self)@, key@, value@),
    {
        match self {
            Interaction::Http(i) => i.comments.insert(key.to_owned(), value),
            Interaction::AsyncMessage(i) => i.comments.insert(key.to_owned(), value),
            Interaction::SyncMessage(i) => i.comments.insert(key.to_owned(), value),
        }
    }
}

/// Notes the name of the test that an interaction belongs to, as the
/// comment `testname`.
///
/// The comment is set wherever the handle resolves to an interaction, on a
/// frozen document too. The status is 0 where the document was a draft, 1
/// where there is no test name to set, 2 where the handle resolves to no
/// interaction, and 3 where the document was frozen.
pub fn pactffi_interaction_test_name(
    registry: &mut HandleRegistry,
    interaction: InteractionHandle,
    test_name: Option<&str>,
) -> (status: u32)
    ensures
        ({
            let found = interaction_at(
                old(registry)@,
                interaction.document(),
                interaction.position(),
            );
            match test_name {
                None => status == 1 && final(registry)@ == old(registry)@,
                Some(name) => match found {
                    None => status == 2 && final(registry)@ == old(registry)@,
                    Some(i) => {
                        &&& final(registry)@ == registry_with(
                            old(registry)@,
                            interaction.document(),
                            interaction.position(),
                            with_comment(i, test_name_key(), JsonModel::String(name@)),
                        )
                        &&& status == (if old(
                            registry,
                        )@[interaction.document()].mock_server_started {
                            3u32
                        } else {
                            0u32
                        })
                    },
                },
            }
        }),
{
    let name = match test_name {
        Some(name) => name,
        None => {
            return 1;
        },
    };
    let (document, position) = interaction.parts();
    match registry.checkout(document, position) {
        None => 2,
        Some((mut taken, place)) => {
            let ghost before = taken@;
            let ghost items = taken.pact.interactions@;
            let ghost changed = with_comment(
                before.pact.interactions[place as int],
                test_name_key(),
                JsonModel::String(name@),
            );
            taken.pact.interactions[place].set_comment("testname", Json::string(name));
            let status: u32 = if taken.mock_server_started {
                3
            } else {
                0
            };
            proof {
                assert(before.pact.interactions[place as int] == items[place as int]@);
                assert(taken@.pact.interactions =~= before.pact.interactions.update(
                    place as int,
                    changed,
                ));
            }
            registry.put(document, taken);
            assert(registry@ =~= registry_with(old(registry)@, document, position, changed));
            status
        },
    }
}

} // verus!
