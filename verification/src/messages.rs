//! The setters of messages.
//!
//! They apply to asynchronous messages only, and report nothing: on a handle
//! that resolves to anything else they do nothing.
use crate::bodies::{OptionalBody, OptionalBodyModel};
use crate::content_type::{parse_content_type, ContentType};
use crate::extract::{body_walk, process_json};
use crate::handles::{interaction_at, registry_with, HandleRegistry, MessageHandle, RegistryModel};
use crate::interactions::{param_value, with_param, with_state, InteractionEdit};
use crate::json::{json_parse, Json, JsonModel};
use crate::model::{
    AsynchronousMessage, AsynchronousMessageModel, Interaction, InteractionModel,
    MessageContentsModel,
};
use crate::text::{given, given_or, read, read_or, utf8_text};
use crate::xml::{process_xml, xml_walk};
use vstd::prelude::*;
use vstd::string::StrSliceExecFns;
use vstd::utf8::{decode_utf8, encode_utf8, valid_utf8};

verus! {

/// The text that a buffer holds: its bytes decoded, or nothing where they
/// are no UTF-8.
pub open spec fn text_of_bytes(bytes: Seq<u8>) -> Seq<char> {
    if valid_utf8(bytes) {
        decode_utf8(bytes)
    } else {
        Seq::empty()
    }
}

/// Whether the contents of a message of this content type are text, so that
/// the buffer is read as a text that may hold annotations.
pub open spec fn is_text_content(content_type: Seq<char>) -> bool {
    parse_content_type(content_type) matches Some(ct) && (ct.is_xml() || ct.is_text())
}

impl AsynchronousMessageModel {
    /// The message after its contents have been set.
    ///
    /// A buffer of no bytes gives empty contents, whatever the content type,
    /// and files nothing. XML contents are written from the builder document
    /// that the buffer holds as text. Other text contents are walked as JSON: the plain
    /// example becomes the contents and what the annotations declare is
    /// filed in the body category. Contents of any other content type, or of
    /// none that can be read, are the bytes of the buffer.
    pub open spec fn with_contents(
        self,
        content_type: Seq<char>,
        body: Seq<u8>,
    ) -> AsynchronousMessageModel {
        let rules = self.contents.matching_rules;
        let generators = self.contents.generators;
        if body.len() == 0 {
            AsynchronousMessageModel {
                contents: MessageContentsModel {
                    contents: OptionalBodyModel::Empty,
                    ..self.contents
                },
                ..self
            }
        } else {
            self.with_filled_contents(content_type, body)
        }
    }

    /// The message after its contents have been set from a buffer that holds
    /// bytes.
    pub open spec fn with_filled_contents(
        self,
        content_type: Seq<char>,
        body: Seq<u8>,
    ) -> AsynchronousMessageModel {
        let rules = self.contents.matching_rules;
        let generators = self.contents.generators;
        match parse_content_type(content_type) {
            Some(ct) => if ct.is_xml() {
                let w = xml_walk(text_of_bytes(body), rules, generators);
                AsynchronousMessageModel {
                    contents: MessageContentsModel {
                        contents: OptionalBodyModel::Present(
                            match w.value {
                                Ok(bytes) => bytes,
                                Err(_) => Seq::empty(),
                            },
                            Some(ct),
                            None,
                        ),
                        matching_rules: w.rules,
                        generators: w.generators,
                        ..self.contents
                    },
                    ..self
                }
            } else if ct.is_text() {
                let text = text_of_bytes(body);
                let w = body_walk(json_parse(text), text, rules, generators);
                AsynchronousMessageModel {
                    contents: MessageContentsModel {
                        contents: OptionalBodyModel::Present(encode_utf8(w.value), Some(ct), None),
                        matching_rules: w.rules,
                        generators: w.generators,
                        ..self.contents
                    },
                    ..self
                }
            } else {
                AsynchronousMessageModel {
                    contents: MessageContentsModel {
                        contents: OptionalBodyModel::Present(body, Some(ct), None),
                        ..self.contents
                    },
                    ..self
                }
            },
            None => AsynchronousMessageModel {
                contents: MessageContentsModel {
                    contents: OptionalBodyModel::Present(body, None, None),
                    ..self.contents
                },
                ..self
            },
        }
    }

    /// The message after a metadata entry has been set to a text.
    pub open spec fn with_metadata(self, key: Seq<char>, value: Seq<char>) -> AsynchronousMessageModel {
        AsynchronousMessageModel {
            contents: MessageContentsModel {
                metadata: self.contents.metadata.insert(key, JsonModel::String(value)),
                ..self.contents
            },
            ..self
        }
    }
}

/// A buffer of no bytes gives empty contents for every content type, and
/// leaves the metadata, the rules and the generators as they are.
pub proof fn lemma_empty_buffer_is_empty_contents(
    message: AsynchronousMessageModel,
    content_type: Seq<char>,
)
    ensures
        message.with_contents(content_type, Seq::empty()) == (AsynchronousMessageModel {
            contents: MessageContentsModel {
                contents: OptionalBodyModel::Empty,
                ..message.contents
            },
            ..message
        }),
{
}

/// A change to a message.
#[derive(Debug)]
pub enum MessageEdit<'a> {
    /// A change that applies to every kind of interaction.
    Common(InteractionEdit<'a>),
    /// Sets the contents from a buffer.
    Contents { content_type: &'a str, body: &'a [u8] },
    /// Sets a metadata entry to a text.
    Metadata { key: &'a str, value: &'a str },
}

impl InteractionModel {
    /// The interaction after an edit to a message. What is no asynchronous
    /// message has neither contents nor metadata to set.
    pub open spec fn message_edited(self, edit: MessageEdit<'_>) -> InteractionModel {
        match edit {
            MessageEdit::Common(common) => self.edited(common),
            MessageEdit::Contents { content_type, body } => match self {
                InteractionModel::AsyncMessage(m) => InteractionModel::AsyncMessage(
                    m.with_contents(content_type@, body@),
                ),
                other => other,
            },
            MessageEdit::Metadata { key, value } => match self {
                InteractionModel::AsyncMessage(m) => InteractionModel::AsyncMessage(
                    m.with_metadata(key@, value@),
                ),
                other => other,
            },
        }
    }
}

impl AsynchronousMessage {
    /// Sets the contents from a buffer.
    pub fn set_contents(&mut self, content_type: &str, body: &[u8])
        ensures
            final(self)@ == old(self)@.with_contents(content_type@, body@),
    {
        proof {
            reveal_strlit("");
            assert(""@ =~= Seq::<char>::empty());
        }
        if body.len() == 0 {
            self.contents.contents = OptionalBody::Empty;
            return;
        }
        match ContentType::parse(content_type) {
            Some(ct) => {
                let text = match utf8_text(body) {
                    Some(t) => t,
                    None => "",
                };
                if ct.is_xml() {
                    let bytes = match process_xml(
                        text,
                        &mut self.contents.matching_rules,
                        &mut self.contents.generators,
                    ) {
                        Ok(bytes) => bytes,
                        Err(_) => Vec::new(),
                    };
                    self.contents.contents = OptionalBody::Present(bytes, Some(ct), None);
                } else if ct.is_text() {
                    let plain = process_json(
                        text,
                        &mut self.contents.matching_rules,
                        &mut self.contents.generators,
                    );
                    self.contents.contents = OptionalBody::Present(
                        plain.as_str().as_bytes_vec(),
                        Some(ct),
                        None,
                    );
                } else {
                    self.contents.contents = OptionalBody::Present(
                        vstd::slice::slice_to_vec(body),
                        Some(ct),
                        None,
                    );
                }
            },
            None => {
                self.contents.contents = OptionalBody::Present(
                    vstd::slice::slice_to_vec(body),
                    None,
                    None,
                );
            },
        }
    }

    /// Sets a metadata entry to a text.
    pub fn set_metadata(&mut self, key: &str, value: &str)
        ensures
            final(self)@ == old(self)@.with_metadata(key@, value@),
    {
        self.contents.metadata.insert(key.to_owned(), Json::string(value));
    }
}

impl Interaction {
    /// Applies an edit to a message.
    pub fn apply_to_message(&mut self, edit: MessageEdit<'_>)
        ensures
            final(self)@ == old(self)@.message_edited(edit),
    {
        match edit {
            MessageEdit::Common(common) => self.apply(common),
            MessageEdit::Contents { content_type, body } => match self {
                Interaction::AsyncMessage(m) => m.set_contents(content_type, body),
                _ => {},
            },
            MessageEdit::Metadata { key, value } => match self {
                Interaction::AsyncMessage(m) => m.set_metadata(key, value),
                _ => {},
            },
        }
    }
}

/// Whether a handle resolves to a message.
pub open spec fn resolves_message(registry: RegistryModel, handle: MessageHandle) -> bool {
    interaction_at(registry, handle.document(), handle.position()) matches Some(i)
        && i.is_message()
}

/// The interaction that a handle resolves to.
pub open spec fn message_at(registry: RegistryModel, handle: MessageHandle) -> InteractionModel {
    interaction_at(registry, handle.document(), handle.position()).unwrap()
}

/// What a setter on a message does. Where the handle resolves to a message,
/// the message becomes `changed`. Anywhere else nothing changes.
pub open spec fn message_updated(
    before: RegistryModel,
    after: RegistryModel,
    handle: MessageHandle,
    changed: InteractionModel,
) -> bool {
    if resolves_message(before, handle) {
        after == registry_with(before, handle.document(), handle.position(), changed)
    } else {
        after == before
    }
}

/// Applies an edit to the message of a handle. Where the handle resolves to
/// no message, nothing changes.
pub fn edit_message(registry: &mut HandleRegistry, message: MessageHandle, edit: MessageEdit<'_>)
    ensures
        message_updated(
            old(registry)@,
            final(registry)@,
            message,
            message_at(old(registry)@, message).message_edited(edit),
        ),
{
    let (document, position) = message.parts();
    match registry.checkout(document, position) {
        None => {},
        Some((mut taken, place)) => {
            let ghost before = taken@;
            let ghost items = taken.pact.interactions@;
            let ghost changed = message_at(old(registry)@, message).message_edited(edit);
            let is_message = taken.pact.interactions[place].is_message();
            if is_message {
                taken.pact.interactions[place].apply_to_message(edit);
            }
            proof {
                assert(before.pact.interactions[place as int] == items[place as int]@);
                if is_message {
                    assert(taken@.pact.interactions =~= before.pact.interactions.update(
                        place as int,
                        changed,
                    ));
                } else {
                    assert(taken@.pact.interactions =~= before.pact.interactions);
                }
            }
            registry.put(document, taken);
            proof {
                if is_message {
                    assert(registry@ =~= registry_with(
                        old(registry)@,
                        document,
                        position,
                        changed,
                    ));
                } else {
                    assert(registry@ =~= old(registry)@);
                }
            }
        },
    }
}

/// Gives a message another description. Without a description nothing is
/// set.
pub fn pactffi_message_expects_to_receive(
    registry: &mut HandleRegistry,
    message: MessageHandle,
    description: Option<&str>,
)
    ensures
        match given(description) {
            Some(d) => message_updated(
                old(registry)@,
                final(registry)@,
                message,
                message_at(old(registry)@, message).with_description(d),
            ),
            None => final(registry)@ == old(registry)@,
        },
{
    match read(description) {
        Some(description) => edit_message(
            registry,
            message,
            MessageEdit::Common(InteractionEdit::Description(description)),
        ),
        None => {},
    }
}

/// Adds a provider state without parameters to a message. Without a
/// description nothing is added.
pub fn pactffi_message_given(
    registry: &mut HandleRegistry,
    message: MessageHandle,
    description: Option<&str>,
)
    ensures
        match given(description) {
            Some(d) => {
                let found = message_at(old(registry)@, message);
                message_updated(
                    old(registry)@,
                    final(registry)@,
                    message,
                    found.with_provider_states(with_state(found.provider_states(), d)),
                )
            },
            None => final(registry)@ == old(registry)@,
        },
{
    match read(description) {
        Some(description) => edit_message(
            registry,
            message,
            MessageEdit::Common(InteractionEdit::Given(description)),
        ),
        None => {},
    }
}

/// Gives a parameter to a provider state of a message, as
/// [`crate::interactions::pactffi_given_with_param`] does for an
/// interaction.
pub fn pactffi_message_given_with_param(
    registry: &mut HandleRegistry,
    message: MessageHandle,
    description: Option<&str>,
    name: Option<&str>,
    value: Option<&str>,
)
    ensures
        match (given(description), given(name)) {
            (Some(d), Some(n)) => {
                let found = message_at(old(registry)@, message);
                message_updated(
                    old(registry)@,
                    final(registry)@,
                    message,
                    found.with_provider_states(
                        with_param(
                            found.provider_states(),
                            d,
                            n,
                            param_value(given_or(value, Seq::empty())),
                        ),
                    ),
                )
            },
            _ => final(registry)@ == old(registry)@,
        },
{
    proof {
        reveal_strlit("");
        assert(""@ =~= Seq::<char>::empty());
    }
    match (read(description), read(name)) {
        (Some(description), Some(name)) => {
            let value = read_or(value, "");
            edit_message(
                registry,
                message,
                MessageEdit::Common(InteractionEdit::GivenWithParam { description, name, value }),
            )
        },
        _ => {},
    }
}

/// Whether the contents of a message of this content type are read as text.
/// A missing content type counts as `text/plain`.
pub fn reads_as_text(content_type: Option<&str>) -> (r: bool)
    ensures
        r == is_text_content(given_or(content_type, "text/plain"@)),
{
    match ContentType::parse(read_or(content_type, "text/plain")) {
        Some(ct) => ct.is_xml() || ct.is_text(),
        None => false,
    }
}

/// Sets the contents of a message from a buffer. A missing content type
/// counts as `text/plain`.
pub fn pactffi_message_with_contents(
    registry: &mut HandleRegistry,
    message_handle: MessageHandle,
    content_type: Option<&str>,
    body: &[u8],
)
    ensures
        message_updated(
            old(registry)@,
            final(registry)@,
            message_handle,
            match message_at(old(registry)@, message_handle) {
                InteractionModel::AsyncMessage(m) => InteractionModel::AsyncMessage(
                    m.with_contents(given_or(content_type, "text/plain"@), body@),
                ),
                other => other,
            },
        ),
{
    let content_type = read_or(content_type, "text/plain");
    edit_message(registry, message_handle, MessageEdit::Contents { content_type, body })
}

/// Sets a metadata entry of a message to a text. A missing value counts as
/// empty, and without a key nothing is set.
pub fn pactffi_message_with_metadata(
    registry: &mut HandleRegistry,
    message_handle: MessageHandle,
    key: Option<&str>,
    value: Option<&str>,
)
    ensures
        match given(key) {
            Some(k) => message_updated(
                old(registry)@,
                final(registry)@,
                message_handle,
                match message_at(old(registry)@, message_handle) {
                    InteractionModel::AsyncMessage(m) => InteractionModel::AsyncMessage(
                        m.with_metadata(k, given_or(value, Seq::empty())),
                    ),
                    other => other,
                },
            ),
            None => final(registry)@ == old(registry)@,
        },
{
    proof {
        reveal_strlit("");
        assert(""@ =~= Seq::<char>::empty());
    }
    match read(key) {
        Some(key) => {
            let value = read_or(value, "");
            edit_message(registry, message_handle, MessageEdit::Metadata { key, value })
        },
        None => {},
    }
}

} // verus!
