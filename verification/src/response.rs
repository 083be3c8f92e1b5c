//! A provider's answer: decoded, normalized and tagged with its origin.

use vstd::prelude::*;

use crate::provider::ProviderId;

verus! {

#[verifier::external_type_specification]
#[verifier::external_body]
pub struct ExJsonValue(serde_json::Value);

#[verifier::external_type_specification]
#[verifier::external_body]
pub struct ExJsonError(serde_json::Error);

#[verifier::external_type_specification]
#[verifier::external_body]
pub struct ExLspItem(lsp_types::CompletionItem);

/// A completion item as the provider sent it. The scheduler carries it
/// through and never looks inside.
pub type LspItem = lsp_types::CompletionItem;

/// A completion item with a reference back to the provider it came from.
pub struct RawItem {
    pub item: LspItem,
    pub provider: ProviderId,
    /// Whether the item's details have been fetched. They never have been
    /// when the item arrives.
    pub resolved: bool,
}

/// What a provider says of its answer as a whole.
#[derive(Debug, Clone, Copy, PartialEq, Eq, Structural)]
pub struct CompletionDetails {
    /// The list is partial: more typing should ask this provider again.
    pub is_incomplete: bool,
}

impl Default for CompletionDetails {
    fn default() -> (details: CompletionDetails)
        ensures
            !details.is_incomplete,
    {
        CompletionDetails { is_incomplete: false }
    }
}

/// The two shapes in which a provider may answer.
pub enum ProviderResponse {
    /// A bare list of items, which is complete.
    Array(Vec<LspItem>),
    /// A list of items with a word on whether it is complete.
    List { is_incomplete: bool, items: Vec<LspItem> },
}

/// A provider's answer in normal form.
pub struct ProviderResult {
    /// The items, in the order in which the provider listed them.
    pub items: Vec<RawItem>,
    pub provider: ProviderId,
    pub details: CompletionDetails,
}

/// Why a provider contributes nothing.
pub enum ProviderFailure {
    /// The request did not get through, or no reply came back.
    Transport(String),
    /// The reply is not a completion response.
    Decode(serde_json::Error),
}

/// How one provider's task ended: with an answer, without one, or in failure.
pub type ProviderOutcome = Result<Option<ProviderResult>, ProviderFailure>;

/// The raw items, each tagged with the provider and marked unresolved.
pub open spec fn tagged(raw: Seq<LspItem>, provider: ProviderId) -> Seq<RawItem> {
    raw.map_values(|item: LspItem| RawItem { item, provider, resolved: false })
}

impl ProviderResponse {
    /// The items of the response, whatever its shape.
    pub open spec fn raw_items(self) -> Seq<LspItem> {
        match self {
            ProviderResponse::Array(items) => items@,
            ProviderResponse::List { items, .. } => items@,
        }
    }

    /// Whether the response calls itself partial. A bare list never does.
    pub open spec fn incomplete(self) -> bool {
        match self {
            ProviderResponse::Array(_) => false,
            ProviderResponse::List { is_incomplete, .. } => is_incomplete,
        }
    }
}

impl ProviderResult {
    /// Every item carries the provider of the result and is unresolved.
    pub open spec fn wf(self) -> bool {
        forall|i: int|
            0 <= i < self.items@.len() ==> (#[trigger] self.items@[i]).provider == self.provider
                && !self.items@[i].resolved
    }

    /// Whether the result is the normal form of `response` for `provider`.
    pub open spec fn is_normal_form_of(self, response: ProviderResponse, provider: ProviderId) -> bool {
        &&& self.items@ == tagged(response.raw_items(), provider)
        &&& self.provider == provider
        &&& self.details.is_incomplete == response.incomplete()
    }
}

/// What `serde_json::from_value` makes of a value that is read as an optional
/// `lsp_types::CompletionResponse`: the response, the absence of one, or the
/// decoder's error. It depends on the value alone.
pub uninterp spec fn decoded_response(json: serde_json::Value) -> Result<
    Option<ProviderResponse>,
    serde_json::Error,
>;

/// Calls `serde_json::from_value` for an optional `lsp_types::CompletionResponse`
/// and hands its two variants on under this crate's names, fields moved as
/// they are. The contract names what the value decodes to without spelling it
/// out.
#[verifier::external_body]
fn decode_response(json: serde_json::Value) -> (decoded: Result<
    Option<ProviderResponse>,
    serde_json::Error,
>)
    ensures
        decoded == decoded_response(json),
{
    let response: Option<lsp_types::CompletionResponse> = serde_json::from_value(json)?;
    Ok(
        match response {
            None => None,
            Some(lsp_types::CompletionResponse::Array(items)) => Some(
                ProviderResponse::Array(items),
            ),
            Some(lsp_types::CompletionResponse::List(list)) => Some(
                ProviderResponse::List { is_incomplete: list.is_incomplete, items: list.items },
            ),
        },
    )
}

/// Calls `clone` of `lsp_types::CompletionItem`, which the crate derives:
/// the copy holds what the item holds, field by field.
#[verifier::external_body]
pub(crate) fn clone_item(item: &LspItem) -> (copy: LspItem)
    ensures
        copy == *item,
{
    item.clone()
}

/// Tags every raw item with its provider, keeping the order.
pub fn tag(raw: Vec<LspItem>, provider: ProviderId) -> (items: Vec<RawItem>)
    ensures
        items@ == tagged(raw@, provider),
{
    let mut items: Vec<RawItem> = Vec::new();
    let ghost all = raw@;
    for item in it: raw
        invariant
            it.seq() == all,
            items@ == tagged(all.take(it.index() as int), provider),
    {
        items.push(RawItem { item, provider, resolved: false });
        assert(all.take(it.index() + 1) == all.take(it.index() as int).push(item));
    }
    assert(all.take(all.len() as int) == all);
    items
}

/// Brings a decoded response into normal form. A provider that sent no
/// response has no result.
pub fn provider_result(response: Option<ProviderResponse>, provider: ProviderId) -> (result:
    Option<ProviderResult>)
    ensures
        response is None ==> result is None,
        response matches Some(r) ==> result matches Some(n) && n.is_normal_form_of(r, provider)
            && n.wf(),
{
    match response {
        None => None,
        Some(ProviderResponse::Array(items)) => Some(
            ProviderResult { items: tag(items, provider), provider, details: Default::default() },
        ),
        Some(ProviderResponse::List { is_incomplete, items }) => Some(
            ProviderResult {
                items: tag(items, provider),
                provider,
                details: CompletionDetails { is_incomplete },
            },
        ),
    }
}

/// Turns what came back from a provider into the outcome of its task.
///
/// A transport failure stays what it is. A reply is decoded: one that holds
/// no response gives no result, one that holds a response gives its normal
/// form for `provider`, and one that does not decode gives the decoder's
/// error as a decode failure.
pub fn provider_outcome(reply: Result<serde_json::Value, ProviderFailure>, provider: ProviderId) -> (outcome:
    ProviderOutcome)
    ensures
        reply matches Err(failure) ==> outcome == Err::<Option<ProviderResult>, ProviderFailure>(
            failure,
        ),
        reply matches Ok(json) ==> match decoded_response(json) {
            Ok(None) => outcome matches Ok(None),
            Ok(Some(response)) => outcome matches Ok(Some(result)) && result.provider == provider
                && result.is_normal_form_of(response, provider) && result.wf(),
            Err(error) => outcome matches Err(ProviderFailure::Decode(e)) && e == error,
        },
{
    match reply {
        Err(failure) => Err(failure),
        Ok(json) => match decode_response(json) {
            Ok(response) => Ok(provider_result(response, provider)),
            Err(error) => Err(ProviderFailure::Decode(error)),
        },
    }
}

} // verus!
