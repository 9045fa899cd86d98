//! The contract document and its interactions.
use crate::bodies::{OptionalBody, OptionalBodyModel};
use crate::dict::Dict;
use crate::json::{Json, JsonModel};
use crate::rules::{Generators, GeneratorsModel, MatchingRules, MatchingRulesModel};
use vstd::prelude::*;

verus! {

/// Names with their lists of values: headers, or query parameters.
pub type ValueMap = Map<Seq<char>, Seq<Seq<char>>>;

/// Names with JSON values: metadata, comments, or the parameters of a
/// provider state.
pub type JsonMap = Map<Seq<char>, JsonModel>;

/// The header that states the content type of a body.
pub open spec fn content_type_header() -> Seq<char> {
    "Content-Type"@
}

/// The version of the contract specification that a document is written to.
#[derive(Clone, Copy, Debug, PartialEq, Eq, Structural)]
pub enum PactSpecification {
    Unknown,
    V1,
    V1_1,
    V2,
    V3,
    V4,
}

impl PactSpecification {
    /// Whether documents of this version keep the two-part request and
    /// response layout: every version before the fourth.
    pub open spec fn is_legacy(self) -> bool {
        self != PactSpecification::V4
    }

    /// Whether documents of this version keep the two-part request and
    /// response layout.
    pub fn legacy(&self) -> (r: bool)
        ensures
            r == self.is_legacy(),
    {
        match self {
            PactSpecification::V4 => false,
            _ => true,
        }
    }
}

/// The consumer of a contract.
#[derive(Debug)]
pub struct Consumer {
    pub name: String,
}

/// The provider of a contract.
#[derive(Debug)]
pub struct Provider {
    pub name: String,
}

/// A state that the provider must be in for an interaction, with the
/// parameters of the state.
#[derive(Debug)]
pub struct ProviderState {
    pub name: String,
    pub params: Dict<String, Json>,
}

/// The model of a [`ProviderState`].
pub ghost struct ProviderStateModel {
    pub name: Seq<char>,
    pub params: JsonMap,
}

impl View for ProviderState {
    type V = ProviderStateModel;

    open spec fn view(&self) -> ProviderStateModel {
        ProviderStateModel { name: self.name@, params: self.params@ }
    }
}

impl DeepView for ProviderState {
    type V = ProviderStateModel;

    open spec fn deep_view(&self) -> ProviderStateModel {
        self@
    }
}

impl ProviderState {
    /// A state without parameters.
    pub fn default(name: &str) -> (r: ProviderState)
        ensures
            r@ == (ProviderStateModel { name: name@, params: Map::empty() }),
    {
        ProviderState { name: name.to_owned(), params: Dict::new() }
    }
}

/// The request half of an HTTP interaction.
#[derive(Debug)]
pub struct HttpRequest {
    pub method: String,
    pub path: String,
    pub query: Option<Dict<String, Vec<String>>>,
    pub headers: Option<Dict<String, Vec<String>>>,
    pub body: OptionalBody,
    pub matching_rules: MatchingRules,
    pub generators: Generators,
}

/// The model of an [`HttpRequest`].
pub ghost struct HttpRequestModel {
    pub method: Seq<char>,
    pub path: Seq<char>,
    pub query: Option<ValueMap>,
    pub headers: Option<ValueMap>,
    pub body: OptionalBodyModel,
    pub matching_rules: MatchingRulesModel,
    pub generators: GeneratorsModel,
}

impl View for HttpRequest {
    type V = HttpRequestModel;

    open spec fn view(&self) -> HttpRequestModel {
        HttpRequestModel {
            method: self.method@,
            path: self.path@,
            query: self.query.deep_view(),
            headers: self.headers.deep_view(),
            body: self.body@,
            matching_rules: self.matching_rules@,
            generators: self.generators@,
        }
    }
}

impl DeepView for HttpRequest {
    type V = HttpRequestModel;

    open spec fn deep_view(&self) -> HttpRequestModel {
        self@
    }
}

impl HttpRequestModel {
    /// A `GET` of `/` with nothing else set.
    pub open spec fn initial() -> HttpRequestModel {
        HttpRequestModel {
            method: "GET"@,
            path: "/"@,
            query: None,
            headers: None,
            body: OptionalBodyModel::Missing,
            matching_rules: MatchingRulesModel::empty(),
            generators: GeneratorsModel::empty(),
        }
    }
}

impl HttpRequest {
    /// A `GET` of `/` with nothing else set.
    pub fn new() -> (r: HttpRequest)
        ensures
            r@ == HttpRequestModel::initial(),
    {
        HttpRequest {
            method: "GET".to_owned(),
            path: "/".to_owned(),
            query: None,
            headers: None,
            body: OptionalBody::Missing,
            matching_rules: MatchingRules::new(),
            generators: Generators::new(),
        }
    }
}

/// The response half of an HTTP interaction.
#[derive(Debug)]
pub struct HttpResponse {
    pub status: u16,
    pub headers: Option<Dict<String, Vec<String>>>,
    pub body: OptionalBody,
    pub matching_rules: MatchingRules,
    pub generators: Generators,
}

/// The model of an [`HttpResponse`].
pub ghost struct HttpResponseModel {
    pub status: u16,
    pub headers: Option<ValueMap>,
    pub body: OptionalBodyModel,
    pub matching_rules: MatchingRulesModel,
    pub generators: GeneratorsModel,
}

impl View for HttpResponse {
    type V = HttpResponseModel;

    open spec fn view(&self) -> HttpResponseModel {
        HttpResponseModel {
            status: self.status,
            headers: self.headers.deep_view(),
            body: self.body@,
            matching_rules: self.matching_rules@,
            generators: self.generators@,
        }
    }
}

impl DeepView for HttpResponse {
    type V = HttpResponseModel;

    open spec fn deep_view(&self) -> HttpResponseModel {
        self@
    }
}

impl HttpResponseModel {
    /// A plain `200` with nothing else set.
    pub open spec fn initial() -> HttpResponseModel {
        HttpResponseModel {
            status: 200,
            headers: None,
            body: OptionalBodyModel::Missing,
            matching_rules: MatchingRulesModel::empty(),
            generators: GeneratorsModel::empty(),
        }
    }
}

impl HttpResponse {
    /// A plain `200` with nothing else set.
    pub fn new() -> (r: HttpResponse)
        ensures
            r@ == HttpResponseModel::initial(),
    {
        HttpResponse {
            status: 200,
            headers: None,
            body: OptionalBody::Missing,
            matching_rules: MatchingRules::new(),
            generators: Generators::new(),
        }
    }
}

/// The contents of a message: its body and metadata, with the rules and
/// generators that apply to them.
#[derive(Debug)]
pub struct MessageContents {
    pub contents: OptionalBody,
    pub metadata: Dict<String, Json>,
    pub matching_rules: MatchingRules,
    pub generators: Generators,
}

/// The model of [`MessageContents`].
pub ghost struct MessageContentsModel {
    pub contents: OptionalBodyModel,
    pub metadata: JsonMap,
    pub matching_rules: MatchingRulesModel,
    pub generators: GeneratorsModel,
}

impl View for MessageContents {
    type V = MessageContentsModel;

    open spec fn view(&self) -> MessageContentsModel {
        MessageContentsModel {
            contents: self.contents@,
            metadata: self.metadata@,
            matching_rules: self.matching_rules@,
            generators: self.generators@,
        }
    }
}

impl DeepView for MessageContents {
    type V = MessageContentsModel;

    open spec fn deep_view(&self) -> MessageContentsModel {
        self@
    }
}

impl MessageContentsModel {
    /// Contents with nothing set.
    pub open spec fn initial() -> MessageContentsModel {
        MessageContentsModel {
            contents: OptionalBodyModel::Missing,
            metadata: Map::empty(),
            matching_rules: MatchingRulesModel::empty(),
            generators: GeneratorsModel::empty(),
        }
    }
}

impl MessageContents {
    /// Contents with nothing set.
    pub fn new() -> (r: MessageContents)
        ensures
            r@ == MessageContentsModel::initial(),
    {
        MessageContents {
            contents: OptionalBody::Missing,
            metadata: Dict::new(),
            matching_rules: MatchingRules::new(),
            generators: Generators::new(),
        }
    }
}

/// An HTTP request with the response expected for it.
#[derive(Debug)]
pub struct SynchronousHttp {
    pub description: String,
    pub provider_states: Vec<ProviderState>,
    pub request: HttpRequest,
    pub response: HttpResponse,
    pub comments: Dict<String, Json>,
}

/// The model of a [`SynchronousHttp`].
pub ghost struct SynchronousHttpModel {
    pub description: Seq<char>,
    pub provider_states: Seq<ProviderStateModel>,
    pub request: HttpRequestModel,
    pub response: HttpResponseModel,
    pub comments: JsonMap,
}

impl View for SynchronousHttp {
    type V = SynchronousHttpModel;

    open spec fn view(&self) -> SynchronousHttpModel {
        SynchronousHttpModel {
            description: self.description@,
            provider_states: self.provider_states.deep_view(),
            request: self.request@,
            response: self.response@,
            comments: self.comments@,
        }
    }
}

impl DeepView for SynchronousHttp {
    type V = SynchronousHttpModel;

    open spec fn deep_view(&self) -> SynchronousHttpModel {
        self@
    }
}

/// A message sent without waiting for an answer.
#[derive(Debug)]
pub struct AsynchronousMessage {
    pub description: String,
    pub provider_states: Vec<ProviderState>,
    pub contents: MessageContents,
    pub comments: Dict<String, Json>,
}

/// The model of an [`AsynchronousMessage`].
pub ghost struct AsynchronousMessageModel {
    pub description: Seq<char>,
    pub provider_states: Seq<ProviderStateModel>,
    pub contents: MessageContentsModel,
    pub comments: JsonMap,
}

impl View for AsynchronousMessage {
    type V = AsynchronousMessageModel;

    open spec fn view(&self) -> AsynchronousMessageModel {
        AsynchronousMessageModel {
            description: self.description@,
            provider_states: self.provider_states.deep_view(),
            contents: self.contents@,
            comments: self.comments@,
        }
    }
}

impl DeepView for AsynchronousMessage {
    type V = AsynchronousMessageModel;

    open spec fn deep_view(&self) -> AsynchronousMessageModel {
        self@
    }
}

/// A message with the messages expected in answer.
#[derive(Debug)]
pub struct SynchronousMessage {
    pub description: String,
    pub provider_states: Vec<ProviderState>,
    pub request: MessageContents,
    pub response: Vec<MessageContents>,
    pub comments: Dict<String, Json>,
}

/// The model of a [`SynchronousMessage`].
pub ghost struct SynchronousMessageModel {
    pub description: Seq<char>,
    pub provider_states: Seq<ProviderStateModel>,
    pub request: MessageContentsModel,
    pub response: Seq<MessageContentsModel>,
    pub comments: JsonMap,
}

impl View for SynchronousMessage {
    type V = SynchronousMessageModel;

    open spec fn view(&self) -> SynchronousMessageModel {
        SynchronousMessageModel {
            description: self.description@,
            provider_states: self.provider_states.deep_view(),
            request: self.request@,
            response: self.response.deep_view(),
            comments: self.comments@,
        }
    }
}

impl DeepView for SynchronousMessage {
    type V = SynchronousMessageModel;

    open spec fn deep_view(&self) -> SynchronousMessageModel {
        self@
    }
}

/// One recorded exchange of a document.
#[derive(Debug)]
pub enum Interaction {
    Http(SynchronousHttp),
    AsyncMessage(AsynchronousMessage),
    SyncMessage(SynchronousMessage),
}

/// The model of an [`Interaction`].
pub ghost enum InteractionModel {
    Http(SynchronousHttpModel),
    AsyncMessage(AsynchronousMessageModel),
    SyncMessage(SynchronousMessageModel),
}

impl View for Interaction {
    type V = InteractionModel;

    open spec fn view(&self) -> InteractionModel {
        match self {
            Interaction::Http(i) => InteractionModel::Http(i@),
            Interaction::AsyncMessage(i) => InteractionModel::AsyncMessage(i@),
            Interaction::SyncMessage(i) => InteractionModel::SyncMessage(i@),
        }
    }
}

impl DeepView for Interaction {
    type V = InteractionModel;

    open spec fn deep_view(&self) -> InteractionModel {
        self@
    }
}

impl InteractionModel {
    /// A fresh HTTP interaction.
    pub open spec fn http(description: Seq<char>) -> InteractionModel {
        InteractionModel::Http(
            SynchronousHttpModel {
                description,
                provider_states: Seq::empty(),
                request: HttpRequestModel::initial(),
                response: HttpResponseModel::initial(),
                comments: Map::empty(),
            },
        )
    }

    /// A fresh asynchronous message.
    pub open spec fn async_message(description: Seq<char>) -> InteractionModel {
        InteractionModel::AsyncMessage(
            AsynchronousMessageModel {
                description,
                provider_states: Seq::empty(),
                contents: MessageContentsModel::initial(),
                comments: Map::empty(),
            },
        )
    }

    /// A fresh synchronous message exchange.
    pub open spec fn sync_message(description: Seq<char>) -> InteractionModel {
        InteractionModel::SyncMessage(
            SynchronousMessageModel {
                description,
                provider_states: Seq::empty(),
                request: MessageContentsModel::initial(),
                response: Seq::empty(),
                comments: Map::empty(),
            },
        )
    }

    /// The description of the interaction.
    pub open spec fn description(self) -> Seq<char> {
        match self {
            InteractionModel::Http(i) => i.description,
            InteractionModel::AsyncMessage(i) => i.description,
            InteractionModel::SyncMessage(i) => i.description,
        }
    }

    /// The provider states of the interaction.
    pub open spec fn provider_states(self) -> Seq<ProviderStateModel> {
        match self {
            InteractionModel::Http(i) => i.provider_states,
            InteractionModel::AsyncMessage(i) => i.provider_states,
            InteractionModel::SyncMessage(i) => i.provider_states,
        }
    }

    /// The same interaction under another description.
    pub open spec fn with_description(self, description: Seq<char>) -> InteractionModel {
        match self {
            InteractionModel::Http(i) => InteractionModel::Http(
                SynchronousHttpModel { description, ..i },
            ),
            InteractionModel::AsyncMessage(i) => InteractionModel::AsyncMessage(
                AsynchronousMessageModel { description, ..i },
            ),
            InteractionModel::SyncMessage(i) => InteractionModel::SyncMessage(
                SynchronousMessageModel { description, ..i },
            ),
        }
    }

    /// The same interaction with other provider states.
    pub open spec fn with_provider_states(
        self,
        provider_states: Seq<ProviderStateModel>,
    ) -> InteractionModel {
        match self {
            InteractionModel::Http(i) => InteractionModel::Http(
                SynchronousHttpModel { provider_states, ..i },
            ),
            InteractionModel::AsyncMessage(i) => InteractionModel::AsyncMessage(
                AsynchronousMessageModel { provider_states, ..i },
            ),
            InteractionModel::SyncMessage(i) => InteractionModel::SyncMessage(
                SynchronousMessageModel { provider_states, ..i },
            ),
        }
    }

    /// Whether the interaction is a message: only the asynchronous kind is.
    pub open spec fn is_message(self) -> bool {
        self is AsyncMessage
    }

    /// The name of the kind of the interaction.
    pub open spec fn type_of(self) -> Seq<char> {
        match self {
            InteractionModel::Http(_) => "V4 Synchronous/HTTP"@,
            InteractionModel::AsyncMessage(_) => "V4 Asynchronous/Messages"@,
            InteractionModel::SyncMessage(_) => "V4 Synchronous/Messages"@,
        }
    }
}

impl Interaction {
    /// A fresh HTTP interaction.
    pub fn http(description: &str) -> (r: Interaction)
        ensures
            r@ == InteractionModel::http(description@),
    {
        let r = Interaction::Http(
            SynchronousHttp {
                description: description.to_owned(),
                provider_states: Vec::new(),
                request: HttpRequest::new(),
                response: HttpResponse::new(),
                comments: Dict::new(),
            },
        );
        assert(r@->Http_0.provider_states =~= Seq::empty());
        r
    }

    /// A fresh asynchronous message.
    pub fn async_message(description: &str) -> (r: Interaction)
        ensures
            r@ == InteractionModel::async_message(description@),
    {
        let r = Interaction::AsyncMessage(
            AsynchronousMessage {
                description: description.to_owned(),
                provider_states: Vec::new(),
                contents: MessageContents::new(),
                comments: Dict::new(),
            },
        );
        assert(r@->AsyncMessage_0.provider_states =~= Seq::empty());
        r
    }

    /// A fresh synchronous message exchange.
    pub fn sync_message(description: &str) -> (r: Interaction)
        ensures
            r@ == InteractionModel::sync_message(description@),
    {
        let r = Interaction::SyncMessage(
            SynchronousMessage {
                description: description.to_owned(),
                provider_states: Vec::new(),
                request: MessageContents::new(),
                response: Vec::new(),
                comments: Dict::new(),
            },
        );
        assert(r@->SyncMessage_0.provider_states =~= Seq::empty());
        assert(r@->SyncMessage_0.response =~= Seq::empty());
        r
    }

    /// The description of the interaction.
    pub fn description(&self) -> (r: &String)
        ensures
            r@ == self@.description(),
    {
        match self {
            Interaction::Http(i) => &i.description,
            Interaction::AsyncMessage(i) => &i.description,
            Interaction::SyncMessage(i) => &i.description,
        }
    }

    /// Gives the interaction another description.
    pub fn set_description(&mut self, description: &str)
        ensures
            final(self)@ == old(self)@.with_description(description@),
    {
        match self {
            Interaction::Http(i) => {
                i.description = description.to_owned();
            },
            Interaction::AsyncMessage(i) => {
                i.description = description.to_owned();
            },
            Interaction::SyncMessage(i) => {
                i.description = description.to_owned();
            },
        }
    }

    /// The provider states of the interaction.
    pub fn provider_states(&self) -> (r: &Vec<ProviderState>)
        ensures
            r.deep_view() == self@.provider_states(),
    {
        match self {
            Interaction::Http(i) => &i.provider_states,
            Interaction::AsyncMessage(i) => &i.provider_states,
            Interaction::SyncMessage(i) => &i.provider_states,
        }
    }

    /// Whether the interaction is a message: only the asynchronous kind is.
    pub fn is_message(&self) -> (r: bool)
        ensures
            r == self@.is_message(),
    {
        match self {
            Interaction::AsyncMessage(_) => true,
            _ => false,
        }
    }

    /// The interaction as an HTTP interaction, where it is one.
    pub fn as_v4_http(&self) -> (r: Option<&SynchronousHttp>)
        ensures
            match r {
                Some(http) => self@ == InteractionModel::Http(http@),
                None => !(self@ is Http),
            },
    {
        match self {
            Interaction::Http(http) => Some(http),
            _ => None,
        }
    }

    /// The interaction as an asynchronous message, where it is one.
    pub fn as_v4_async_message(&self) -> (r: Option<&AsynchronousMessage>)
        ensures
            match r {
                Some(message) => self@ == InteractionModel::AsyncMessage(message@),
                None => !(self@ is AsyncMessage),
            },
    {
        match self {
            Interaction::AsyncMessage(message) => Some(message),
            _ => None,
        }
    }

    /// The interaction as a synchronous message exchange, where it is one.
    pub fn as_v4_sync_message(&self) -> (r: Option<&SynchronousMessage>)
        ensures
            match r {
                Some(message) => self@ == InteractionModel::SyncMessage(message@),
                None => !(self@ is SyncMessage),
            },
    {
        match self {
            Interaction::SyncMessage(message) => Some(message),
            _ => None,
        }
    }

    /// The name of the kind of the interaction.
    pub fn type_of(&self) -> (r: String)
        ensures
            r@ == self@.type_of(),
    {
        match self {
            Interaction::Http(_) => "V4 Synchronous/HTTP".to_owned(),
            Interaction::AsyncMessage(_) => "V4 Asynchronous/Messages".to_owned(),
            Interaction::SyncMessage(_) => "V4 Synchronous/Messages".to_owned(),
        }
    }
}

/// A contract document: who it is between, and what they exchange.
#[derive(Debug)]
pub struct V4Pact {
    pub consumer: Consumer,
    pub provider: Provider,
    pub interactions: Vec<Interaction>,
    pub metadata: Dict<String, Json>,
}

/// The model of a [`V4Pact`].
pub ghost struct V4PactModel {
    pub consumer: Seq<char>,
    pub provider: Seq<char>,
    pub interactions: Seq<InteractionModel>,
    pub metadata: JsonMap,
}

impl View for V4Pact {
    type V = V4PactModel;

    open spec fn view(&self) -> V4PactModel {
        V4PactModel {
            consumer: self.consumer.name@,
            provider: self.provider.name@,
            interactions: self.interactions.deep_view(),
            metadata: self.metadata@,
        }
    }
}

impl DeepView for V4Pact {
    type V = V4PactModel;

    open spec fn deep_view(&self) -> V4PactModel {
        self@
    }
}

/// A document as the registry keeps it: the document, whether its mock
/// server has started, and the specification version it will be written to.
#[derive(Debug)]
pub struct PactHandleInner {
    pub pact: V4Pact,
    pub mock_server_started: bool,
    pub specification_version: PactSpecification,
}

/// The model of a [`PactHandleInner`].
pub ghost struct PactHandleInnerModel {
    pub pact: V4PactModel,
    pub mock_server_started: bool,
    pub specification_version: PactSpecification,
}

impl View for PactHandleInner {
    type V = PactHandleInnerModel;

    open spec fn view(&self) -> PactHandleInnerModel {
        PactHandleInnerModel {
            pact: self.pact@,
            mock_server_started: self.mock_server_started,
            specification_version: self.specification_version,
        }
    }
}

impl DeepView for PactHandleInner {
    type V = PactHandleInnerModel;

    open spec fn deep_view(&self) -> PactHandleInnerModel {
        self@
    }
}

impl PactHandleInnerModel {
    /// A draft document between `consumer` and `provider` with no
    /// interactions, to be written to the third version of the
    /// specification.
    pub open spec fn initial(consumer: Seq<char>, provider: Seq<char>) -> PactHandleInnerModel {
        PactHandleInnerModel {
            pact: V4PactModel {
                consumer,
                provider,
                interactions: Seq::empty(),
                metadata: Map::empty(),
            },
            mock_server_started: false,
            specification_version: PactSpecification::V3,
        }
    }
}

impl PactHandleInner {
    /// A draft document between `consumer` and `provider`.
    pub fn new(consumer: &str, provider: &str) -> (r: PactHandleInner)
        ensures
            r@ == PactHandleInnerModel::initial(consumer@, provider@),
    {
        let r = PactHandleInner {
            pact: V4Pact {
                consumer: Consumer { name: consumer.to_owned() },
                provider: Provider { name: provider.to_owned() },
                interactions: Vec::new(),
                metadata: Dict::new(),
            },
            mock_server_started: false,
            specification_version: PactSpecification::V3,
        };
        assert(r@.pact.interactions =~= Seq::empty());
        r
    }
}

} // verus!
