//! The request and response data model of the Responses API: plain values
//! that carry no behaviour of their own.

use vstd::prelude::*;

verus! {

/// The detail level of an image input.
pub type ImageDetail = DetailEnum;

#[derive(Debug, Clone, PartialEq)]
pub struct AllowedToolsParam {
    /// The tool choice type. Always `allowed_tools`.
    pub ty: String,
    /// The list of tools that are permitted for this request.
    pub tools: Vec<SpecificToolChoiceParam>,
    /// How to select a tool from the allowed set.
    pub mode: Option<ToolChoiceValueEnum>,
}

/// An annotation that applies to a span of output text.
#[derive(Debug, Clone, PartialEq)]
pub enum Annotation {
    UrlCitation(UrlCitationBody),
}

#[derive(Debug, Clone, PartialEq)]
pub enum AssistantMessageContent {
    /// A piece of assistant message content, such as text or a refusal.
    Array(Vec<AssistantMessageContentPart>),
    /// The message content, as a single string.
    String(String),
}

#[derive(Debug, Clone, PartialEq)]
pub enum AssistantMessageContentPart {
    OutputText(OutputTextContentParam),
    Refusal(RefusalContentParam),
}

#[derive(Debug, Clone, PartialEq)]
pub struct AssistantMessageItemParam {
    /// The unique ID of this message item.
    pub id: Option<String>,
    /// The role of the message author. Always `assistant`.
    pub role: String,
    /// The message content, as an array of content parts.
    pub content: AssistantMessageContent,
    /// The status of the message item.
    pub status: Option<String>,
}

#[derive(Debug, Clone, PartialEq)]
pub enum DetailEnum {
    /// Choose the detail level automatically.
    Auto,
    /// Allows the model to "see" a higher-resolution version of the image, usually increasing input token costs.
    High,
    /// Restricts the model to a lower-resolution version of the image.
    Low,
}

#[derive(Debug, Clone, PartialEq)]
pub struct DeveloperMessageItemParam {
    /// The unique ID of this message item.
    pub id: Option<String>,
    /// The message role. Always `developer`.
    pub role: String,
    /// The message content, as an array of content parts.
    pub content: SystemMessageContent,
    /// The status of the message item.
    pub status: Option<String>,
}

#[derive(Debug, Clone, PartialEq)]
pub struct EmptyModelParam {}

/// An error payload that was emitted for a streaming error event.
#[derive(Debug, Clone, PartialEq)]
pub struct ErrorPayload {
    /// The error type that was emitted.
    pub ty: String,
    /// The error code that was emitted, if any.
    pub code: Option<String>,
    /// The human-readable error message that was emitted.
    pub message: String,
    /// The parameter name that was associated with the error, if any.
    pub param: Option<String>,
    /// The response headers that were emitted with the error, if any.
    pub headers: Option<std::collections::HashMap<String, String>>,
}

/// A function tool call that was generated by the model.
#[derive(Debug, Clone, PartialEq)]
pub struct FunctionCall {
    /// The unique ID of the function call item.
    pub id: String,
    /// The unique ID of the function tool call that was generated.
    pub call_id: String,
    /// The name of the function that was called.
    pub name: String,
    /// The arguments JSON string that was generated.
    pub arguments: String,
    /// The status of the function call item that was recorded.
    pub status: FunctionCallStatus,
}

#[derive(Debug, Clone, PartialEq)]
pub struct FunctionCallItemParam {
    /// The unique ID of this function tool call.
    pub id: Option<String>,
    /// The unique ID of the function tool call generated by the model.
    pub call_id: String,
    /// The name of the function to call.
    pub name: String,
    /// The function arguments as a JSON string.
    pub arguments: String,
    /// The status of the function tool call.
    pub status: Option<FunctionCallStatus>,
}

#[derive(Debug, Clone, PartialEq)]
pub enum FunctionCallOutput {
    /// A JSON string of the output of the function tool call.
    String(String),
    /// An array of content outputs (text, image, file) for the function tool call.
    Array(Vec<FunctionCallOutputPart>),
}

/// The output of a function tool call.
#[derive(Debug, Clone, PartialEq)]
pub struct FunctionCallOutputItemParam {
    /// The unique ID of the function tool call output. Populated when this item is returned via API.
    pub id: Option<String>,
    /// The unique ID of the function tool call generated by the model.
    pub call_id: String,
    /// Text, image, or file output of the function tool call.
    pub output: FunctionCallOutput,
    /// The status of the item. One of `in_progress`, `completed`, or `incomplete`. Populated when items are returned via API.
    pub status: Option<FunctionCallStatus>,
}

#[derive(Debug, Clone, PartialEq)]
pub enum FunctionCallOutputPart {
    InputText(InputTextContentParam),
    InputImage(InputImageContentParamAutoParam),
    InputFile(InputFileContentParam),
    InputVideo(InputVideoContent),
}

/// A function tool call output that was returned by the tool.
#[derive(Debug, Clone, PartialEq)]
pub struct FunctionCallOutputResource {
    /// The unique ID of the function tool call output. Populated when this item is returned via API.
    pub id: String,
    /// The unique ID of the function tool call generated by the model.
    pub call_id: String,
    /// Text, image, or file output of the function tool call.
    pub output: FunctionCallOutput,
    /// The status of the item. One of `in_progress`, `completed`, or `incomplete`. Populated when items are returned via API.
    pub status: FunctionCallOutputStatusEnum,
}

#[derive(Debug, Clone, PartialEq)]
pub enum FunctionCallOutputStatusEnum {
    InProgress,
    Completed,
    Incomplete,
}

#[derive(Debug, Clone, PartialEq)]
pub enum FunctionCallStatus {
    /// Model is currently sampling this item.
    InProgress,
    /// Model has finished sampling this item.
    Completed,
    /// Model was interrupted from sampling this item partway through.
    Incomplete,
}

#[derive(Debug, Clone, PartialEq)]
pub enum IncludeEnum {
    /// includes encrypted reasoning content so that it may be rehydrated on a subsequent request.
    ReasoningEncryptedContent,
    /// includes sampled logprobs in assistant messages.
    MessageOutputTextLogprobs,
}

/// Details about why the response was incomplete.
#[derive(Debug, Clone, PartialEq)]
pub struct IncompleteDetails {
    /// The reason the response could not be completed.
    pub reason: String,
}

/// A file input to the model.
#[derive(Debug, Clone, PartialEq)]
pub struct InputFileContent {
    /// The name of the file to be sent to the model.
    pub filename: String,
    /// The URL of the file to be sent to the model.
    pub file_url: String,
}

/// A file input to the model.
#[derive(Debug, Clone, PartialEq)]
pub struct InputFileContentParam {
    /// The name of the file to be sent to the model.
    pub filename: Option<String>,
    /// The base64-encoded data of the file to be sent to the model.
    pub file_data: Option<String>,
    /// The URL of the file to be sent to the model.
    pub file_url: Option<String>,
}

/// An image input to the model. Learn about [image inputs](/docs/guides/vision).
#[derive(Debug, Clone, PartialEq)]
pub struct InputImageContent {
    /// The URL of the image to be sent to the model. A fully qualified URL or base64 encoded image in a data URL.
    pub image_url: Option<String>,
    /// The detail level of the image to be sent to the model. One of `high`, `low`, or `auto`. Defaults to `auto`.
    pub detail: ImageDetail,
}

/// An image input to the model. Learn about [image inputs](/docs/guides/vision)
#[derive(Debug, Clone, PartialEq)]
pub struct InputImageContentParamAutoParam {
    /// The URL of the image to be sent to the model. A fully qualified URL or base64 encoded image in a data URL.
    pub image_url: Option<String>,
    /// The detail level of the image to be sent to the model. One of `high`, `low`, or `auto`. Defaults to `auto`.
    pub detail: Option<ImageDetail>,
}

/// A text input to the model.
#[derive(Debug, Clone, PartialEq)]
pub struct InputTextContent {
    /// The text input to the model.
    pub text: String,
}

/// A text input to the model.
#[derive(Debug, Clone, PartialEq)]
pub struct InputTextContentParam {
    /// The text input to the model.
    pub text: String,
}

/// A breakdown of input token usage that was recorded.
#[derive(Debug, Clone, PartialEq)]
pub struct InputTokensDetails {
    /// The number of input tokens that were served from cache.
    pub cached_tokens: i32,
}

/// A content block representing a video input to the model.
#[derive(Debug, Clone, PartialEq)]
pub struct InputVideoContent {
    /// A base64 or remote url that resolves to a video file.
    pub video_url: String,
}

/// An internal identifier for an item to reference.
#[derive(Debug, Clone, PartialEq)]
pub struct ItemReferenceParam {
    /// The ID of the item to reference.
    pub id: String,
}

#[derive(Debug, Clone, PartialEq)]
pub enum MessageItemParam {
    User(UserMessageItemParam),
    System(SystemMessageItemParam),
    Developer(DeveloperMessageItemParam),
    Assistant(AssistantMessageItemParam),
}

#[derive(Debug, Clone, PartialEq)]
pub enum MessageRole {
    /// End-user input in the conversation.
    User,
    /// Model-generated content in the conversation.
    Assistant,
    /// System-level instructions that set global behavior.
    System,
    /// Developer-supplied guidance that shapes the assistant’s behavior.
    Developer,
}

#[derive(Debug, Clone, PartialEq)]
pub enum MessageStatus {
    /// Model is currently sampling this item.
    InProgress,
    /// Model has finished sampling this item.
    Completed,
    /// Model was interrupted from sampling this item partway through.
    Incomplete,
}

#[derive(Debug, Clone, PartialEq)]
pub struct OutputTextContentParam {
    /// The text content.
    pub text: String,
    /// Citations associated with the text content.
    pub annotations: Option<Vec<UrlCitationParam>>,
}

/// A breakdown of output token usage that was recorded.
#[derive(Debug, Clone, PartialEq)]
pub struct OutputTokensDetails {
    /// The number of output tokens that were attributed to reasoning.
    pub reasoning_tokens: i32,
}

/// Reasoning configuration and metadata that were used for the response.
#[derive(Debug, Clone, PartialEq)]
pub struct Reasoning {
    /// The reasoning effort that was requested for the model, if specified.
    pub effort: Option<ReasoningEffortEnum>,
    /// A model-generated summary of its reasoning that was produced, if available.
    pub summary: Option<ReasoningSummaryEnum>,
}

#[derive(Debug, Clone, PartialEq)]
pub enum ReasoningEffortEnum {
    /// Restrict the model from performing any reasoning before emitting a final answer
    /// (`none` on the wire).
    NoReasoning,
    /// Use a lower reasoning effort for faster responses.
    Low,
    /// Use a balanced reasoning effort.
    Medium,
    /// Use a higher reasoning effort to improve answer quality.
    High,
    /// Use the maximum reasoning effort available.
    Xhigh,
}

/// **gpt-5 and o-series models only** Configuration options for [reasoning models](https://platform.openai.com/docs/guides/reasoning).
#[derive(Debug, Clone, PartialEq)]
pub struct ReasoningParam {
    /// Controls the level of reasoning effort the model should apply. Higher effort may increase latency and cost.
    pub effort: Option<ReasoningEffortEnum>,
    /// Controls whether the response includes a reasoning summary.
    pub summary: Option<ReasoningSummaryEnum>,
}

#[derive(Debug, Clone, PartialEq)]
pub struct ReasoningSummaryContentParam {
    /// The content type. Always `summary_text`.
    pub ty: String,
    /// The reasoning summary text.
    pub text: String,
}

#[derive(Debug, Clone, PartialEq)]
pub enum ReasoningSummaryEnum {
    /// Emit concise summaries of reasoning content.
    Concise,
    /// Emit details summaries of reasoning content.
    Detailed,
    /// Allow the model to decide when to summarize.
    Auto,
}

/// Reasoning text from the model.
#[derive(Debug, Clone, PartialEq)]
pub struct ReasoningTextContent {
    /// The reasoning text from the model.
    pub text: String,
}

/// A refusal from the model.
#[derive(Debug, Clone, PartialEq)]
pub struct RefusalContent {
    /// The refusal explanation from the model.
    pub refusal: String,
}

#[derive(Debug, Clone, PartialEq)]
pub struct RefusalContentParam {
    /// The refusal text.
    pub refusal: String,
}

#[derive(Debug, Clone, PartialEq)]
pub enum ServiceTierEnum {
    /// Choose a service tier automatically based on current account state.
    Auto,
    /// Choose the default service tier.
    Default,
    /// Choose the flex service tier.
    Flex,
    /// Choose the priority service tier.
    Priority,
}

#[derive(Debug, Clone, PartialEq)]
pub struct SpecificFunctionParam {
    /// The tool to call. Always `function`.
    pub ty: String,
    /// The name of the function tool to call.
    pub name: String,
}

#[derive(Debug, Clone, PartialEq)]
pub enum SpecificToolChoiceParam {
    SpecificFunction(SpecificFunctionParam),
}

/// Options that control streamed response behavior.
#[derive(Debug, Clone, PartialEq)]
pub struct StreamOptionsParam {
    /// Whether to obfuscate sensitive information in streamed output. Defaults to `true`.
    pub include_obfuscation: Option<bool>,
}

/// A summary text from the model.
#[derive(Debug, Clone, PartialEq)]
pub struct SummaryTextContent {
    /// A summary of the reasoning output from the model so far.
    pub text: String,
}

#[derive(Debug, Clone, PartialEq)]
pub enum SystemMessageContent {
    Array(Vec<InputTextContentParam>),
    /// The message content, as a single string.
    String(String),
}

#[derive(Debug, Clone, PartialEq)]
pub struct SystemMessageItemParam {
    /// The unique ID of this message item.
    pub id: Option<String>,
    /// The message role. Always `system`.
    pub role: String,
    /// The message content, as an array of content parts.
    pub content: SystemMessageContent,
    /// The status of the message item.
    pub status: Option<String>,
}

/// A text content.
#[derive(Debug, Clone, PartialEq)]
pub struct TextContent {
    pub text: String,
}

/// Controls which tool the model should use, if any.
#[derive(Debug, Clone, PartialEq)]
pub enum ToolChoiceParam {
    SpecificToolChoice(SpecificToolChoiceParam),
    ToolChoiceValue(ToolChoiceValueEnum),
    AllowedTools(AllowedToolsParam),
}

#[derive(Debug, Clone, PartialEq)]
pub enum ToolChoiceValueEnum {
    /// Restrict the model from calling any tools (`none` on the wire).
    NoTools,
    /// Let the model choose the tools from among the provided set.
    Auto,
    /// Require the model to call a tool.
    Required,
}

#[derive(Debug, Clone, PartialEq)]
pub enum TruncationEnum {
    /// Let the service decide how to truncate.
    Auto,
    /// Disable service truncation. Context over the model's context limit will result in a 400 error.
    Disabled,
}

/// A citation for a web resource used to generate a model response.
#[derive(Debug, Clone, PartialEq)]
pub struct UrlCitationBody {
    /// The URL of the web resource.
    pub url: String,
    /// The index of the first character of the URL citation in the message.
    pub start_index: i32,
    /// The index of the last character of the URL citation in the message.
    pub end_index: i32,
    /// The title of the web resource.
    pub title: String,
}

#[derive(Debug, Clone, PartialEq)]
pub struct UrlCitationParam {
    /// The citation type. Always `url_citation`.
    pub ty: String,
    /// The index of the first character of the citation in the message.
    pub start_index: i32,
    /// The index of the last character of the citation in the message.
    pub end_index: i32,
    /// The URL of the cited resource.
    pub url: String,
    /// The title of the cited resource.
    pub title: String,
}

/// Token usage statistics that were recorded for the response.
#[derive(Debug, Clone, PartialEq)]
pub struct Usage {
    /// The number of input tokens that were used to generate the response.
    pub input_tokens: i32,
    /// The number of output tokens that were generated by the model.
    pub output_tokens: i32,
    /// The total number of tokens that were used.
    pub total_tokens: i32,
    /// A breakdown of input token usage that was recorded.
    pub input_tokens_details: InputTokensDetails,
    /// A breakdown of output token usage that was recorded.
    pub output_tokens_details: OutputTokensDetails,
}

#[derive(Debug, Clone, PartialEq)]
pub enum UserMessageContent {
    /// A piece of message content, such as text, an image, or a file.
    Array(Vec<UserMessageContentPart>),
    /// The message content, as a single string.
    String(String),
}

#[derive(Debug, Clone, PartialEq)]
pub enum UserMessageContentPart {
    InputText(InputTextContentParam),
    InputImage(InputImageContentParamAutoParam),
    InputFile(InputFileContentParam),
}

#[derive(Debug, Clone, PartialEq)]
pub struct UserMessageItemParam {
    /// The unique ID of this message item.
    pub id: Option<String>,
    /// The message role. Always `user`.
    pub role: String,
    /// The message content, as an array of content parts.
    pub content: UserMessageContent,
    /// The status of the message item.
    pub status: Option<String>,
}

#[derive(Debug, Clone, PartialEq)]
pub enum VerbosityEnum {
    /// Instruct the model to emit less verbose final responses.
    Low,
    /// Use the model's default verbosity setting.
    Medium,
    /// Instruct the model to emit more verbose final responses.
    High,
}

} // verus!
