//! What the builder hands to the writer of contract files: where a document
//! goes, under which name and in which layout, and the status that the
//! outcome of the writing is reported as.
use crate::bodies::{OptionalBody, OptionalBodyModel};
use crate::handles::{
    interaction_at, HandleRegistry, MessageHandle, MessagePactHandle, PactHandle, RegistryModel,
};
use crate::model::{Interaction, InteractionModel, PactSpecification, V4Pact, V4PactModel};
use crate::text::{given, read};
use vstd::prelude::*;
use vstd::string::StringExecFns;

verus! {

/// Where a file goes: a directory, and the name of the file in it where one
/// is given.
#[derive(Debug)]
pub struct FilePath {
    pub directory: String,
    pub file_name: Option<String>,
}

/// The model of a [`FilePath`].
pub ghost struct FilePathModel {
    pub directory: Seq<char>,
    pub file_name: Option<Seq<char>>,
}

impl View for FilePath {
    type V = FilePathModel;

    open spec fn view(&self) -> FilePathModel {
        FilePathModel { directory: self.directory@, file_name: self.file_name.deep_view() }
    }
}

impl DeepView for FilePath {
    type V = FilePathModel;

    open spec fn deep_view(&self) -> FilePathModel {
        self@
    }
}

/// The place of a file in a directory. Without a directory there is none:
/// the file then goes to the current working directory.
pub fn path_from_dir(directory: Option<&str>, file_name: Option<&str>) -> (r: Option<FilePath>)
    ensures
        r.deep_view() == (match given(directory) {
            Some(d) => Some(
                FilePathModel {
                    directory: d,
                    file_name: match file_name {
                        Some(n) => Some(n@),
                        None => None,
                    },
                },
            ),
            None => None,
        }),
{
    match read(directory) {
        Some(d) => Some(
            FilePath {
                directory: d.to_owned(),
                file_name: match file_name {
                    Some(n) => Some(n.to_owned()),
                    None => None,
                },
            },
        ),
        None => None,
    }
}

impl V4PactModel {
    /// The name of the file that the document is written to, unless the
    /// caller names another: consumer and provider, joined by a hyphen.
    pub open spec fn default_file_name(self) -> Seq<char> {
        self.consumer + "-"@ + self.provider + ".json"@
    }
}

impl V4Pact {
    /// The name of the file that the document is written to.
    pub fn default_file_name(&self) -> (r: String)
        ensures
            r@ == self@.default_file_name(),
    {
        let mut r = self.consumer.name.clone();
        r.append("-");
        r.append(self.provider.name.as_str());
        r.append(".json");
        r
    }
}

/// What the writer is asked to do.
#[derive(Debug)]
pub struct WritePlan {
    /// The directory to write to; `None` for the current working directory.
    pub directory: Option<String>,
    /// The name of the file.
    pub file_name: String,
    /// The specification version, which decides the layout of the file.
    pub specification_version: PactSpecification,
    /// Whether a file that exists is replaced rather than merged into.
    pub overwrite: bool,
}

/// The model of a [`WritePlan`].
pub ghost struct WritePlanModel {
    pub directory: Option<Seq<char>>,
    pub file_name: Seq<char>,
    pub specification_version: PactSpecification,
    pub overwrite: bool,
}

impl View for WritePlan {
    type V = WritePlanModel;

    open spec fn view(&self) -> WritePlanModel {
        WritePlanModel {
            directory: self.directory.deep_view(),
            file_name: self.file_name@,
            specification_version: self.specification_version,
            overwrite: self.overwrite,
        }
    }
}

impl DeepView for WritePlan {
    type V = WritePlanModel;

    open spec fn deep_view(&self) -> WritePlanModel {
        self@
    }
}

/// The plan for writing a document, or `None` where there is no document.
pub open spec fn write_plan(
    registry: RegistryModel,
    document: u16,
    directory: Option<&str>,
    overwrite: bool,
) -> Option<WritePlanModel> {
    if registry.contains_key(document) {
        Some(
            WritePlanModel {
                directory: given(directory),
                file_name: registry[document].pact.default_file_name(),
                specification_version: registry[document].specification_version,
                overwrite,
            },
        )
    } else {
        None
    }
}

fn plan(registry: &HandleRegistry, document: u16, directory: Option<&str>, overwrite: bool) -> (r:
    Option<WritePlan>)
    ensures
        r.deep_view() == write_plan(registry@, document, directory, overwrite),
{
    match registry.get(document) {
        Some(found) => Some(
            WritePlan {
                directory: match read(directory) {
                    Some(d) => Some(d.to_owned()),
                    None => None,
                },
                file_name: found.pact.default_file_name(),
                specification_version: found.specification_version,
                overwrite,
            },
        ),
        None => None,
    }
}

/// Plans the writing of a document: the directory (`None` for the current
/// working directory), the file name, the specification version and whether
/// to overwrite. Gives `None` where the handle resolves to no document.
pub fn pactffi_pact_handle_write_file(
    registry: &HandleRegistry,
    pact: PactHandle,
    directory: Option<&str>,
    overwrite: bool,
) -> (r: Option<WritePlan>)
    ensures
        r.deep_view() == write_plan(registry@, pact.pact_ref, directory, overwrite),
{
    plan(registry, pact.pact_ref, directory, overwrite)
}

/// Plans the writing of a document of messages, as
/// [`pactffi_pact_handle_write_file`] does for any document.
pub fn pactffi_write_message_pact_file(
    registry: &HandleRegistry,
    pact: MessagePactHandle,
    directory: Option<&str>,
    overwrite: bool,
) -> (r: Option<WritePlan>)
    ensures
        r.deep_view() == write_plan(registry@, pact.pact_ref, directory, overwrite),
{
    plan(registry, pact.pact_ref, directory, overwrite)
}

/// How an attempt to write a document ended.
#[derive(Clone, Copy, Debug, PartialEq, Eq, Structural)]
pub enum WriteOutcome {
    /// The file was written.
    Written,
    /// The writer failed.
    Failed,
    /// The handle resolved to no document.
    NotFound,
    /// Something unexpected went wrong.
    Panicked,
}

/// The status that the writing of a document is reported as: 0 for success,
/// 1 for an unexpected failure, 2 where the file could not be written and 3
/// where there was no document.
pub fn pact_handle_write_status(outcome: WriteOutcome) -> (status: i32)
    ensures
        status == (match outcome {
            WriteOutcome::Written => 0i32,
            WriteOutcome::Panicked => 1i32,
            WriteOutcome::Failed => 2i32,
            WriteOutcome::NotFound => 3i32,
        }),
{
    match outcome {
        WriteOutcome::Written => 0,
        WriteOutcome::Panicked => 1,
        WriteOutcome::Failed => 2,
        WriteOutcome::NotFound => 3,
    }
}

/// The status that the writing of a document of messages is reported as: 0
/// for success, 1 where the file could not be written, for whatever reason,
/// and 2 where there was no document.
pub fn message_pact_write_status(outcome: WriteOutcome) -> (status: i32)
    ensures
        status == (match outcome {
            WriteOutcome::Written => 0i32,
            WriteOutcome::Panicked => 1i32,
            WriteOutcome::Failed => 1i32,
            WriteOutcome::NotFound => 2i32,
        }),
{
    match outcome {
        WriteOutcome::Written => 0,
        WriteOutcome::Panicked => 1,
        WriteOutcome::Failed => 1,
        WriteOutcome::NotFound => 2,
    }
}

/// What a message comes to when its annotations are stripped.
#[derive(Debug)]
pub enum Reified {
    /// A text that stands for the message as it is.
    Text(String),
    /// The message itself, to be rendered by the writer in the layout of
    /// the document: the two-part one where `legacy` is set.
    Message { legacy: bool },
}

/// The model of a [`Reified`].
pub ghost enum ReifiedModel {
    Text(Seq<char>),
    Message { legacy: bool },
}

impl View for Reified {
    type V = ReifiedModel;

    open spec fn view(&self) -> ReifiedModel {
        match self {
            Reified::Text(text) => ReifiedModel::Text(text@),
            Reified::Message { legacy } => ReifiedModel::Message { legacy: *legacy },
        }
    }
}

/// What reifying a message gives: `null` for a null body, the message for a
/// body with content, and the empty text for any other body and for a handle
/// that resolves to no message.
pub open spec fn reified(registry: RegistryModel, handle: MessageHandle) -> ReifiedModel {
    match interaction_at(registry, handle.document(), handle.position()) {
        Some(InteractionModel::AsyncMessage(m)) => match m.contents.contents {
            OptionalBodyModel::Null => ReifiedModel::Text("null"@),
            OptionalBodyModel::Present(_, _, _) => ReifiedModel::Message {
                legacy: registry[handle.document()].specification_version.is_legacy(),
            },
            _ => ReifiedModel::Text(Seq::empty()),
        },
        _ => ReifiedModel::Text(Seq::empty()),
    }
}

/// Reifies a message: says what stands for the message once its annotations
/// are stripped.
pub fn pactffi_message_reify(registry: &HandleRegistry, message_handle: MessageHandle) -> (r:
    Reified)
    ensures
        r@ == reified(registry@, message_handle),
{
    let (document, position) = message_handle.parts();
    match registry.interaction(document, position) {
        Some(Interaction::AsyncMessage(m)) => match &m.contents.contents {
            OptionalBody::Null => Reified::Text("null".to_owned()),
            OptionalBody::Present(_, _, _) => {
                let legacy = match registry.get(document) {
                    Some(found) => found.specification_version.legacy(),
                    None => false,
                };
                Reified::Message { legacy }
            },
            _ => Reified::Text(String::new()),
        },
        _ => Reified::Text(String::new()),
    }
}

} // verus!
