//! The `model` command: required arguments and usage text.
use vstd::prelude::*;
use crate::commands::chat::arg_at;
use crate::output::{line, CoreCommandOutput};
use crate::model::{function_type_name, function_type_named, functionTypeName, opt_view, parseFunctionType, FunctionType};
use crate::order::{compare_text, lemma_text_le_reflexive, lemma_text_le_total, lemma_text_le_transitive, text_le};
use vstd::multiset::Multiset;
use crate::text::{str_eq, to_owned, views};
use crate::num::{nat_digits, u64_to_string};

verus! {

/// Returns the argument at `index`, or the usage text as the error.
pub fn requiredArg<'a>(args: &'a [String], index: usize, usage: &str) -> (r: Result<&'a str, String>)
    ensures
        match r {
            Ok(s) => arg_at(views(args@), index as int) == Some(s@),
            Err(e) => arg_at(views(args@), index as int) is None && e@ == usage@,
        },
{
    if index < args.len() {
        Ok(args[index].as_str())
    } else {
        Err(to_owned(usage))
    }
}

/// The lines `model` prints when used without a known subcommand.
pub open spec fn model_usage_text() -> Seq<char> {
    line("operit2 model provider-type-list"@)
        + line("operit2 model provider-list"@)
        + line("operit2 model provider-show <provider-id>"@)
        + line("operit2 model provider-create <name> <provider-type-id> <endpoint>"@)
        + line("operit2 model provider-set-key <provider-id> <api-key>"@)
        + line("operit2 model provider-set-endpoint <provider-id> <endpoint>"@)
        + line("operit2 model provider-model-available-list <provider-id>"@)
        + line("operit2 model provider-model-add <provider-id> <provider-model-id>"@)
        + line("operit2 model provider-model-create <provider-id> <provider-model-id>"@)
        + line("operit2 model list"@)
        + line("operit2 model show [provider-id] [model-id]"@)
        + line("operit2 model use <provider-id> <model-id>"@)
        + line("operit2 model params [provider-id] [model-id]"@)
        + line("operit2 model parameters <provider-id> <model-id> <parameters-json>"@)
        + line("operit2 model context-show [provider-id] [model-id]"@)
        + line("operit2 model context-set <provider-id> <model-id> <max-context-length> <enable-max-context-mode>"@)
        + line("operit2 model summary-show [provider-id] [model-id]"@)
        + line("operit2 model summary-set <provider-id> <model-id> <enable-summary> <summary-token-threshold> <enable-summary-by-message-count> <summary-message-count-threshold>"@)
        + line("operit2 model function-list"@)
        + line("operit2 model function-show <function-type>"@)
        + line("operit2 model function-set <function-type> <provider-id> <model-id>"@)
        + line("operit2 model function-reset [function-type]"@)
}

/// Prints model command usage.
pub fn print_model_usage(output: &mut CoreCommandOutput)
    ensures
        final(output).stdout@ == old(output).stdout@ + model_usage_text(),
        final(output).stderr@ == old(output).stderr@,
{
    output.push_stdout_line("operit2 model provider-type-list");
    output.push_stdout_line("operit2 model provider-list");
    output.push_stdout_line("operit2 model provider-show <provider-id>");
    output.push_stdout_line("operit2 model provider-create <name> <provider-type-id> <endpoint>");
    output.push_stdout_line("operit2 model provider-set-key <provider-id> <api-key>");
    output.push_stdout_line("operit2 model provider-set-endpoint <provider-id> <endpoint>");
    output.push_stdout_line("operit2 model provider-model-available-list <provider-id>");
    output.push_stdout_line("operit2 model provider-model-add <provider-id> <provider-model-id>");
    output.push_stdout_line("operit2 model provider-model-create <provider-id> <provider-model-id>");
    output.push_stdout_line("operit2 model list");
    output.push_stdout_line("operit2 model show [provider-id] [model-id]");
    output.push_stdout_line("operit2 model use <provider-id> <model-id>");
    output.push_stdout_line("operit2 model params [provider-id] [model-id]");
    output.push_stdout_line("operit2 model parameters <provider-id> <model-id> <parameters-json>");
    output.push_stdout_line("operit2 model context-show [provider-id] [model-id]");
    output.push_stdout_line("operit2 model context-set <provider-id> <model-id> <max-context-length> <enable-max-context-mode>");
    output.push_stdout_line("operit2 model summary-show [provider-id] [model-id]");
    output.push_stdout_line("operit2 model summary-set <provider-id> <model-id> <enable-summary> <summary-token-threshold> <enable-summary-by-message-count> <summary-message-count-threshold>");
    output.push_stdout_line("operit2 model function-list");
    output.push_stdout_line("operit2 model function-show <function-type>");
    output.push_stdout_line("operit2 model function-set <function-type> <provider-id> <model-id>");
    output.push_stdout_line("operit2 model function-reset [function-type]");
    assert(output.stdout@ =~= old(output).stdout@ + model_usage_text());
}

/// The argument at `j`, or the usage text as the refusal.
pub open spec fn required(a: Seq<Seq<char>>, j: int, usage: Seq<char>) -> Result<Seq<char>, Seq<char>> {
    match arg_at(a, j) {
        Some(s) => Ok(s),
        None => Err(usage),
    }
}

/// The arguments at 1 and 2, or the usage text as the refusal.
pub open spec fn required2(a: Seq<Seq<char>>, usage: Seq<char>) -> Result<(Seq<char>, Seq<char>), Seq<char>> {
    match (arg_at(a, 1), arg_at(a, 2)) {
        (Some(x), Some(y)) => Ok((x, y)),
        _ => Err(usage),
    }
}

/// The arguments at 1, 2 and 3, or the usage text as the refusal.
pub open spec fn required3(a: Seq<Seq<char>>, usage: Seq<char>) -> Result<(Seq<char>, Seq<char>, Seq<char>), Seq<char>> {
    match (arg_at(a, 1), arg_at(a, 2), arg_at(a, 3)) {
        (Some(x), Some(y), Some(z)) => Ok((x, y, z)),
        _ => Err(usage),
    }
}

/// One `model` subcommand with its arguments read. Absent optional
/// provider and model ids stand for the configured defaults; the number and
/// switch arguments of `context-set` and `summary-set` are carried as given.
#[derive(Clone, Debug)]
pub enum ModelRequest {
    Usage,
    ProviderTypeList,
    ProviderList,
    ProviderShow { provider_id: String },
    ProviderCreate { name: String, provider_type_id: String, endpoint: String },
    ProviderSetKey { provider_id: String, api_key: String },
    ProviderSetEndpoint { provider_id: String, endpoint: String },
    ProviderModelAvailableList { provider_id: String },
    ProviderModelAdd { provider_id: String, model_id: String },
    ProviderModelCreate { provider_id: String, model_id: String },
    List,
    Show { provider_id: Option<String>, model_id: Option<String> },
    Use { provider_id: String, model_id: String },
    Params { provider_id: Option<String>, model_id: Option<String> },
    Parameters { provider_id: String, model_id: String, parameters_json: String },
    ContextShow { provider_id: Option<String>, model_id: Option<String> },
    ContextSet { provider_id: String, model_id: String, max_context_length: Option<String>, enable_max_context_mode: Option<String> },
    SummaryShow { provider_id: Option<String>, model_id: Option<String> },
    SummarySet {
        provider_id: String,
        model_id: String,
        enable_summary: Option<String>,
        summary_token_threshold: Option<String>,
        enable_summary_by_message_count: Option<String>,
        summary_message_count_threshold: Option<String>,
    },
    FunctionList,
    FunctionShow { function_type: FunctionType },
    FunctionSet { function_type: FunctionType, provider_id: String, model_id: String },
    FunctionReset { function_type: Option<FunctionType> },
}

/// A `model` subcommand as plain values: its kind and its text and role arguments.
pub struct ModelRequestView {
    pub kind: int,
    pub texts: Seq<Option<Seq<char>>>,
    pub role: Option<FunctionType>,
}

/// The plain view of a request: a kind number in subcommand order, the text
/// arguments in order, and the role.
pub open spec fn model_request_view(r: ModelRequest) -> ModelRequestView {
    match r {
        ModelRequest::Usage => ModelRequestView { kind: 0, texts: seq![], role: None },
        ModelRequest::ProviderTypeList => ModelRequestView { kind: 1, texts: seq![], role: None },
        ModelRequest::ProviderList => ModelRequestView { kind: 2, texts: seq![], role: None },
        ModelRequest::ProviderShow { provider_id } => ModelRequestView { kind: 3, texts: seq![Some(provider_id@)], role: None },
        ModelRequest::ProviderCreate { name, provider_type_id, endpoint } =>
            ModelRequestView { kind: 4, texts: seq![Some(name@), Some(provider_type_id@), Some(endpoint@)], role: None },
        ModelRequest::ProviderSetKey { provider_id, api_key } => ModelRequestView { kind: 5, texts: seq![Some(provider_id@), Some(api_key@)], role: None },
        ModelRequest::ProviderSetEndpoint { provider_id, endpoint } => ModelRequestView { kind: 6, texts: seq![Some(provider_id@), Some(endpoint@)], role: None },
        ModelRequest::ProviderModelAvailableList { provider_id } => ModelRequestView { kind: 7, texts: seq![Some(provider_id@)], role: None },
        ModelRequest::ProviderModelAdd { provider_id, model_id } => ModelRequestView { kind: 8, texts: seq![Some(provider_id@), Some(model_id@)], role: None },
        ModelRequest::ProviderModelCreate { provider_id, model_id } => ModelRequestView { kind: 9, texts: seq![Some(provider_id@), Some(model_id@)], role: None },
        ModelRequest::List => ModelRequestView { kind: 10, texts: seq![], role: None },
        ModelRequest::Show { provider_id, model_id } => ModelRequestView { kind: 11, texts: seq![opt_view(provider_id), opt_view(model_id)], role: None },
        ModelRequest::Use { provider_id, model_id } => ModelRequestView { kind: 12, texts: seq![Some(provider_id@), Some(model_id@)], role: None },
        ModelRequest::Params { provider_id, model_id } => ModelRequestView { kind: 13, texts: seq![opt_view(provider_id), opt_view(model_id)], role: None },
        ModelRequest::Parameters { provider_id, model_id, parameters_json } =>
            ModelRequestView { kind: 14, texts: seq![Some(provider_id@), Some(model_id@), Some(parameters_json@)], role: None },
        ModelRequest::ContextShow { provider_id, model_id } => ModelRequestView { kind: 15, texts: seq![opt_view(provider_id), opt_view(model_id)], role: None },
        ModelRequest::ContextSet { provider_id, model_id, max_context_length, enable_max_context_mode } =>
            ModelRequestView { kind: 16, texts: seq![Some(provider_id@), Some(model_id@), opt_view(max_context_length), opt_view(enable_max_context_mode)], role: None },
        ModelRequest::SummaryShow { provider_id, model_id } => ModelRequestView { kind: 17, texts: seq![opt_view(provider_id), opt_view(model_id)], role: None },
        ModelRequest::SummarySet { provider_id, model_id, enable_summary, summary_token_threshold, enable_summary_by_message_count, summary_message_count_threshold } =>
            ModelRequestView { kind: 18, texts: seq![Some(provider_id@), Some(model_id@), opt_view(enable_summary), opt_view(summary_token_threshold),
                opt_view(enable_summary_by_message_count), opt_view(summary_message_count_threshold)], role: None },
        ModelRequest::FunctionList => ModelRequestView { kind: 19, texts: seq![], role: None },
        ModelRequest::FunctionShow { function_type } => ModelRequestView { kind: 20, texts: seq![], role: Some(function_type) },
        ModelRequest::FunctionSet { function_type, provider_id, model_id } =>
            ModelRequestView { kind: 21, texts: seq![Some(provider_id@), Some(model_id@)], role: Some(function_type) },
        ModelRequest::FunctionReset { function_type } => ModelRequestView { kind: 22, texts: seq![], role: function_type },
    }
}

/// A request of `kind` with text arguments `texts` and no role.
pub open spec fn plain(kind: int, texts: Seq<Option<Seq<char>>>) -> ModelRequestView {
    ModelRequestView { kind, texts, role: None }
}

/// The request that `model` arguments make, or why they are refused.
pub open spec fn model_request(a: Seq<Seq<char>>) -> Result<ModelRequestView, Seq<char>> {
    if a.len() == 0 {
        Ok(plain(0, seq![]))
    } else {
        let c = a[0];
        if c == "provider-type-list"@ {
            Ok(plain(1, seq![]))
        } else if c == "provider-list"@ {
            Ok(plain(2, seq![]))
        } else if c == "provider-show"@ {
            match required(a, 1, "usage: operit2 model provider-show <provider-id>"@) {
                Ok(p) => Ok(plain(3, seq![Some(p)])),
                Err(e) => Err(e),
            }
        } else if c == "provider-create"@ {
            match required3(a, "usage: operit2 model provider-create <name> <provider-type-id> <endpoint>"@) {
                Ok((x, y, z)) => Ok(plain(4, seq![Some(x), Some(y), Some(z)])),
                Err(e) => Err(e),
            }
        } else if c == "provider-set-key"@ {
            match required2(a, "usage: operit2 model provider-set-key <provider-id> <api-key>"@) {
                Ok((x, y)) => Ok(plain(5, seq![Some(x), Some(y)])),
                Err(e) => Err(e),
            }
        } else if c == "provider-set-endpoint"@ {
            match required2(a, "usage: operit2 model provider-set-endpoint <provider-id> <endpoint>"@) {
                Ok((x, y)) => Ok(plain(6, seq![Some(x), Some(y)])),
                Err(e) => Err(e),
            }
        } else if c == "provider-model-available-list"@ {
            match required(a, 1, "usage: operit2 model provider-model-available-list <provider-id>"@) {
                Ok(p) => Ok(plain(7, seq![Some(p)])),
                Err(e) => Err(e),
            }
        } else if c == "provider-model-add"@ {
            match required2(a, "usage: operit2 model provider-model-add <provider-id> <model-id>"@) {
                Ok((x, y)) => Ok(plain(8, seq![Some(x), Some(y)])),
                Err(e) => Err(e),
            }
        } else if c == "provider-model-create"@ {
            match required2(a, "usage: operit2 model provider-model-create <provider-id> <model-id>"@) {
                Ok((x, y)) => Ok(plain(9, seq![Some(x), Some(y)])),
                Err(e) => Err(e),
            }
        } else if c == "list"@ {
            Ok(plain(10, seq![]))
        } else if c == "show"@ {
            Ok(plain(11, seq![arg_at(a, 1), arg_at(a, 2)]))
        } else if c == "use"@ {
            match required2(a, "usage: operit2 model use <provider-id> <model-id>"@) {
                Ok((x, y)) => Ok(plain(12, seq![Some(x), Some(y)])),
                Err(e) => Err(e),
            }
        } else if c == "params"@ {
            Ok(plain(13, seq![arg_at(a, 1), arg_at(a, 2)]))
        } else if c == "parameters"@ {
            match required3(a, "usage: operit2 model parameters <provider-id> <model-id> <parameters-json>"@) {
                Ok((x, y, z)) => Ok(plain(14, seq![Some(x), Some(y), Some(z)])),
                Err(e) => Err(e),
            }
        } else if c == "context-show"@ {
            Ok(plain(15, seq![arg_at(a, 1), arg_at(a, 2)]))
        } else if c == "context-set"@ {
            match required2(a, "usage: operit2 model context-set <provider-id> <model-id> <max-context-length> <enable-max-context-mode>"@) {
                Ok((x, y)) => Ok(plain(16, seq![Some(x), Some(y), arg_at(a, 3), arg_at(a, 4)])),
                Err(e) => Err(e),
            }
        } else if c == "summary-show"@ {
            Ok(plain(17, seq![arg_at(a, 1), arg_at(a, 2)]))
        } else if c == "summary-set"@ {
            match required2(a, "usage: operit2 model summary-set <provider-id> <model-id> <enable-summary> <summary-token-threshold> <enable-summary-by-message-count> <summary-message-count-threshold>"@) {
                Ok((x, y)) => Ok(plain(18, seq![Some(x), Some(y), arg_at(a, 3), arg_at(a, 4), arg_at(a, 5), arg_at(a, 6)])),
                Err(e) => Err(e),
            }
        } else if c == "function-list"@ {
            Ok(plain(19, seq![]))
        } else if c == "function-show"@ {
            match required(a, 1, "usage: operit2 model function-show <function-type>"@) {
                Err(e) => Err(e),
                Ok(v) => match function_type_named(v) {
                    Some(f) => Ok(ModelRequestView { kind: 20, texts: seq![], role: Some(f) }),
                    None => Err("invalid FunctionType: "@ + v),
                },
            }
        } else if c == "function-set"@ {
            match required(a, 1, "usage: operit2 model function-set <function-type> <provider-id> <model-id>"@) {
                Err(e) => Err(e),
                Ok(v) => match function_type_named(v) {
                    None => Err("invalid FunctionType: "@ + v),
                    Some(f) => match required2(a, "usage: operit2 model function-set <function-type> <provider-id> <model-id>"@) {
                        Err(e) => Err(e),
                        Ok(_) => match required3(a, "usage: operit2 model function-set <function-type> <provider-id> <model-id>"@) {
                            Err(e) => Err(e),
                            Ok((_, y, z)) => Ok(ModelRequestView { kind: 21, texts: seq![Some(y), Some(z)], role: Some(f) }),
                        },
                    },
                },
            }
        } else if c == "function-reset"@ {
            match arg_at(a, 1) {
                None => Ok(ModelRequestView { kind: 22, texts: seq![], role: None }),
                Some(v) => match function_type_named(v) {
                    Some(f) => Ok(ModelRequestView { kind: 22, texts: seq![], role: Some(f) }),
                    None => Err("invalid FunctionType: "@ + v),
                },
            }
        } else {
            Ok(plain(0, seq![]))
        }
    }
}

/// The argument at `j`, copied.
fn arg_copy(args: &[String], j: usize) -> (r: Option<String>)
    ensures
        opt_view(r) == arg_at(views(args@), j as int),
{
    if j < args.len() { Some(args[j].clone()) } else { None }
}

/// The argument at `j`, copied, or the usage text as the refusal.
fn required_copy(args: &[String], j: usize, usage: &str) -> (r: Result<String, String>)
    ensures
        match r {
            Ok(s) => required(views(args@), j as int, usage@) == Ok::<_, Seq<char>>(s@),
            Err(e) => required(views(args@), j as int, usage@) == Err::<Seq<char>, _>(e@),
        },
{
    match requiredArg(args, j, usage) {
        Ok(s) => Ok(String::from_str(s)),
        Err(e) => Err(e),
    }
}

/// Reads the arguments of `model` into the request they make.
pub fn parse_model_command(args: &[String]) -> (r: Result<ModelRequest, String>)
    ensures
        match r {
            Ok(req) => model_request(views(args@)) == Ok::<_, Seq<char>>(model_request_view(req)),
            Err(e) => model_request(views(args@)) == Err::<ModelRequestView, _>(e@),
        },
{
    let ghost a = views(args@);
    if args.len() == 0 {
        return Ok(ModelRequest::Usage);
    }
    let c = args[0].as_str();
    assert(a[0] == c@);
    if str_eq(c, "provider-type-list") {
        Ok(ModelRequest::ProviderTypeList)
    } else if str_eq(c, "provider-list") {
        Ok(ModelRequest::ProviderList)
    } else if str_eq(c, "provider-show") {
        let provider_id = required_copy(args, 1, "usage: operit2 model provider-show <provider-id>")?;
        Ok(ModelRequest::ProviderShow { provider_id })
    } else if str_eq(c, "provider-create") {
        let u = "usage: operit2 model provider-create <name> <provider-type-id> <endpoint>";
        let name = required_copy(args, 1, u)?;
        let provider_type_id = required_copy(args, 2, u)?;
        let endpoint = required_copy(args, 3, u)?;
        Ok(ModelRequest::ProviderCreate { name, provider_type_id, endpoint })
    } else if str_eq(c, "provider-set-key") {
        let u = "usage: operit2 model provider-set-key <provider-id> <api-key>";
        let provider_id = required_copy(args, 1, u)?;
        let api_key = required_copy(args, 2, u)?;
        Ok(ModelRequest::ProviderSetKey { provider_id, api_key })
    } else if str_eq(c, "provider-set-endpoint") {
        let u = "usage: operit2 model provider-set-endpoint <provider-id> <endpoint>";
        let provider_id = required_copy(args, 1, u)?;
        let endpoint = required_copy(args, 2, u)?;
        Ok(ModelRequest::ProviderSetEndpoint { provider_id, endpoint })
    } else if str_eq(c, "provider-model-available-list") {
        let provider_id = required_copy(args, 1, "usage: operit2 model provider-model-available-list <provider-id>")?;
        Ok(ModelRequest::ProviderModelAvailableList { provider_id })
    } else if str_eq(c, "provider-model-add") {
        let u = "usage: operit2 model provider-model-add <provider-id> <model-id>";
        let provider_id = required_copy(args, 1, u)?;
        let model_id = required_copy(args, 2, u)?;
        Ok(ModelRequest::ProviderModelAdd { provider_id, model_id })
    } else if str_eq(c, "provider-model-create") {
        let u = "usage: operit2 model provider-model-create <provider-id> <model-id>";
        let provider_id = required_copy(args, 1, u)?;
        let model_id = required_copy(args, 2, u)?;
        Ok(ModelRequest::ProviderModelCreate { provider_id, model_id })
    } else if str_eq(c, "list") {
        Ok(ModelRequest::List)
    } else if str_eq(c, "show") {
        Ok(ModelRequest::Show { provider_id: arg_copy(args, 1), model_id: arg_copy(args, 2) })
    } else if str_eq(c, "use") {
        let u = "usage: operit2 model use <provider-id> <model-id>";
        let provider_id = required_copy(args, 1, u)?;
        let model_id = required_copy(args, 2, u)?;
        Ok(ModelRequest::Use { provider_id, model_id })
    } else if str_eq(c, "params") {
        Ok(ModelRequest::Params { provider_id: arg_copy(args, 1), model_id: arg_copy(args, 2) })
    } else if str_eq(c, "parameters") {
        let u = "usage: operit2 model parameters <provider-id> <model-id> <parameters-json>";
        let provider_id = required_copy(args, 1, u)?;
        let model_id = required_copy(args, 2, u)?;
        let parameters_json = required_copy(args, 3, u)?;
        Ok(ModelRequest::Parameters { provider_id, model_id, parameters_json })
    } else if str_eq(c, "context-show") {
        Ok(ModelRequest::ContextShow { provider_id: arg_copy(args, 1), model_id: arg_copy(args, 2) })
    } else if str_eq(c, "context-set") {
        let u = "usage: operit2 model context-set <provider-id> <model-id> <max-context-length> <enable-max-context-mode>";
        let provider_id = required_copy(args, 1, u)?;
        let model_id = required_copy(args, 2, u)?;
        Ok(ModelRequest::ContextSet {
            provider_id,
            model_id,
            max_context_length: arg_copy(args, 3),
            enable_max_context_mode: arg_copy(args, 4),
        })
    } else if str_eq(c, "summary-show") {
        Ok(ModelRequest::SummaryShow { provider_id: arg_copy(args, 1), model_id: arg_copy(args, 2) })
    } else if str_eq(c, "summary-set") {
        let u = "usage: operit2 model summary-set <provider-id> <model-id> <enable-summary> <summary-token-threshold> <enable-summary-by-message-count> <summary-message-count-threshold>";
        let provider_id = required_copy(args, 1, u)?;
        let model_id = required_copy(args, 2, u)?;
        Ok(ModelRequest::SummarySet {
            provider_id,
            model_id,
            enable_summary: arg_copy(args, 3),
            summary_token_threshold: arg_copy(args, 4),
            enable_summary_by_message_count: arg_copy(args, 5),
            summary_message_count_threshold: arg_copy(args, 6),
        })
    } else if str_eq(c, "function-list") {
        Ok(ModelRequest::FunctionList)
    } else if str_eq(c, "function-show") {
        let v = required_copy(args, 1, "usage: operit2 model function-show <function-type>")?;
        let function_type = parseFunctionType(v.as_str())?;
        Ok(ModelRequest::FunctionShow { function_type })
    } else if str_eq(c, "function-set") {
        let u = "usage: operit2 model function-set <function-type> <provider-id> <model-id>";
        let v = required_copy(args, 1, u)?;
        let function_type = parseFunctionType(v.as_str())?;
        let provider_id = required_copy(args, 2, u)?;
        let model_id = required_copy(args, 3, u)?;
        Ok(ModelRequest::FunctionSet { function_type, provider_id, model_id })
    } else if str_eq(c, "function-reset") {
        match arg_copy(args, 1) {
            None => Ok(ModelRequest::FunctionReset { function_type: None }),
            Some(v) => {
                let function_type = parseFunctionType(v.as_str())?;
                Ok(ModelRequest::FunctionReset { function_type: Some(function_type) })
            },
        }
    } else {
        Ok(ModelRequest::Usage)
    }
}

/// Model bindings ordered by the names of their functional roles.
pub open spec fn bindings_sorted(s: Seq<(FunctionType, String, String)>) -> bool {
    forall|i: int, j: int| 0 <= i < j < s.len() ==> text_le(function_type_name((#[trigger] s[i]).0), function_type_name((#[trigger] s[j]).0))
}

/// One `function-list` row: the role's name, the provider id and the model
/// id, tab-separated.
pub open spec fn binding_row(b: (FunctionType, String, String)) -> Seq<char> {
    function_type_name(b.0) + "\t"@ + b.1@ + "\t"@ + b.2@
}

/// Orders model bindings (role, provider id, model id) by role name.
pub fn sort_function_bindings(v: Vec<(FunctionType, String, String)>) -> (r: Vec<(FunctionType, String, String)>)
    ensures
        r@.to_multiset() == v@.to_multiset(),
        bindings_sorted(r@),
{
    broadcast use vstd::seq_lib::group_to_multiset_ensures;
    let mut rest = v;
    let mut out: Vec<(FunctionType, String, String)> = Vec::new();
    while rest.len() > 0
        invariant
            out@.to_multiset().add(rest@.to_multiset()) == v@.to_multiset(),
            bindings_sorted(out@),
        decreases rest.len(),
    {
        let ghost before_rest = rest@;
        let x = rest.pop().unwrap();
        assert(before_rest =~= rest@.push(x));
        let ghost xk = function_type_name(x.0);
        let mut p: usize = 0;
        while p < out.len()
            invariant
                p <= out.len(),
                xk == function_type_name(x.0),
                forall|i: int| 0 <= i < p ==> text_le(function_type_name((#[trigger] out@[i]).0), xk),
            ensures
                p <= out.len(),
                forall|i: int| 0 <= i < p ==> text_le(function_type_name((#[trigger] out@[i]).0), xk),
                p < out.len() ==> text_le(xk, function_type_name(out@[p as int].0)),
            decreases out.len() - p,
        {
            let c = compare_text(functionTypeName(&x.0), functionTypeName(&out[p].0));
            let x_first = match c {
                Some(b) => b,
                None => true,
            };
            if x_first {
                proof {
                    if c is None {
                        lemma_text_le_reflexive(xk);
                    }
                }
                break;
            }
            proof { lemma_text_le_total(xk, function_type_name(out@[p as int].0)); }
            p = p + 1;
        }
        let ghost before_out = out@;
        proof {
            assert forall|j: int| p <= j < before_out.len() implies text_le(xk, function_type_name((#[trigger] before_out[j]).0)) by {
                if j > p {
                    lemma_text_le_transitive(xk, function_type_name(before_out[p as int].0), function_type_name(before_out[j].0));
                }
            }
        }
        out.insert(p, x);
        proof {
            assert(out@ == before_out.insert(p as int, x));
            assert forall|i: int, j: int| 0 <= i < j < out@.len() implies text_le(function_type_name((#[trigger] out@[i]).0), function_type_name((#[trigger] out@[j]).0)) by {
                if j == p {
                } else if i == p {
                    assert(out@[j] == before_out[j - 1]);
                } else {
                    let ii = if i < p { i } else { i - 1 };
                    let jj = if j < p { j } else { j - 1 };
                    assert(out@[i] == before_out[ii]);
                    assert(out@[j] == before_out[jj]);
                }
            }
            vstd::seq_lib::to_multiset_insert(before_out, p as int, x);
            vstd::seq_lib::to_multiset_build(rest@, x);
            assert(out@.to_multiset().add(rest@.to_multiset()) =~= before_out.to_multiset().add(before_rest.to_multiset()));
        }
    }
    assert(rest@.to_multiset() =~= Multiset::<(FunctionType, String, String)>::empty());
    assert(out@.to_multiset().add(rest@.to_multiset()) =~= out@.to_multiset());
    out
}

/// The `function-list` rows of model bindings (role, provider id, model
/// id), one per binding, ordered by role name.
pub fn function_list_rows(bindings: Vec<(FunctionType, String, String)>) -> (r: Vec<String>)
    ensures
        exists|s: Seq<(FunctionType, String, String)>|
            s.to_multiset() == bindings@.to_multiset() && bindings_sorted(s)
            && views(r@) == s.map_values(|b: (FunctionType, String, String)| binding_row(b)),
{
    let sorted = sort_function_bindings(bindings);
    let mut rows: Vec<String> = Vec::new();
    let mut i: usize = 0;
    while i < sorted.len()
        invariant
            i <= sorted.len(),
            views(rows@) =~= sorted@.subrange(0, i as int).map_values(|b: (FunctionType, String, String)| binding_row(b)),
        decreases sorted.len() - i,
    {
        let mut row = String::from_str(functionTypeName(&sorted[i].0));
        row.append("\t");
        row.append(sorted[i].1.as_str());
        row.append("\t");
        row.append(sorted[i].2.as_str());
        let ghost before = views(rows@);
        rows.push(row);
        proof {
            reveal_strlit("\t");
            assert(views(rows@) =~= before.push(binding_row(sorted@[i as int])));
            assert(sorted@.subrange(0, i + 1).map_values(|b: (FunctionType, String, String)| binding_row(b))
                =~= sorted@.subrange(0, i as int).map_values(|b: (FunctionType, String, String)| binding_row(b)).push(binding_row(sorted@[i as int])));
        }
        i = i + 1;
    }
    assert(sorted@.subrange(0, sorted.len() as int) =~= sorted@);
    rows
}

/// The `function-show` lines of one model binding.
pub fn function_show_lines(functionType: &FunctionType, providerId: &str, modelId: &str) -> (r: Vec<String>)
    ensures
        views(r@) == seq!["functionType="@ + function_type_name(*functionType), "providerId="@ + providerId@, "modelId="@ + modelId@],
{
    let mut a = String::from_str("functionType=");
    a.append(functionTypeName(functionType));
    let mut b = String::from_str("providerId=");
    b.append(providerId);
    let mut c = String::from_str("modelId=");
    c.append(modelId);
    let r = vec![a, b, c];
    assert(views(r@) =~= seq![a@, b@, c@]);
    r
}

/// One `provider-list` row: id, name, provider type id, endpoint and the
/// number of models, tab-separated.
pub open spec fn provider_row(id: Seq<char>, name: Seq<char>, type_id: Seq<char>, endpoint: Seq<char>, models: nat) -> Seq<char> {
    id + "\t"@ + name + "\t"@ + type_id + "\t"@ + endpoint + "\t"@ + nat_digits(models)
}

/// The `provider-list` row of one provider profile.
pub fn provider_list_row(id: &str, name: &str, providerTypeId: &str, endpoint: &str, modelCount: u64) -> (r: String)
    ensures
        r@ == provider_row(id@, name@, providerTypeId@, endpoint@, modelCount as nat),
{
    let mut r = String::from_str(id);
    r.append("\t");
    r.append(name);
    r.append("\t");
    r.append(providerTypeId);
    r.append("\t");
    r.append(endpoint);
    r.append("\t");
    r.append(u64_to_string(modelCount).as_str());
    proof { reveal_strlit("\t"); }
    r
}

/// Provider types (id, display name, default endpoint, model count) ordered
/// by id.
pub open spec fn provider_types_sorted(s: Seq<(String, String, String, u64)>) -> bool {
    forall|i: int, j: int| 0 <= i < j < s.len() ==> text_le((#[trigger] s[i]).0@, (#[trigger] s[j]).0@)
}

/// Orders provider types by id.
pub fn sort_provider_types(v: Vec<(String, String, String, u64)>) -> (r: Vec<(String, String, String, u64)>)
    ensures
        r@.to_multiset() == v@.to_multiset(),
        provider_types_sorted(r@),
{
    broadcast use vstd::seq_lib::group_to_multiset_ensures;
    let mut rest = v;
    let mut out: Vec<(String, String, String, u64)> = Vec::new();
    while rest.len() > 0
        invariant
            out@.to_multiset().add(rest@.to_multiset()) == v@.to_multiset(),
            provider_types_sorted(out@),
        decreases rest.len(),
    {
        let ghost before_rest = rest@;
        let x = rest.pop().unwrap();
        assert(before_rest =~= rest@.push(x));
        let mut p: usize = 0;
        while p < out.len()
            invariant
                p <= out.len(),
                forall|i: int| 0 <= i < p ==> text_le((#[trigger] out@[i]).0@, x.0@),
            ensures
                p <= out.len(),
                forall|i: int| 0 <= i < p ==> text_le((#[trigger] out@[i]).0@, x.0@),
                p < out.len() ==> text_le(x.0@, out@[p as int].0@),
            decreases out.len() - p,
        {
            let c = compare_text(x.0.as_str(), out[p].0.as_str());
            let x_first = match c {
                Some(b) => b,
                None => true,
            };
            if x_first {
                proof {
                    if c is None {
                        lemma_text_le_reflexive(x.0@);
                    }
                }
                break;
            }
            proof { lemma_text_le_total(x.0@, out@[p as int].0@); }
            p = p + 1;
        }
        let ghost before_out = out@;
        proof {
            assert forall|j: int| p <= j < before_out.len() implies text_le(x.0@, (#[trigger] before_out[j]).0@) by {
                if j > p {
                    lemma_text_le_transitive(x.0@, before_out[p as int].0@, before_out[j].0@);
                }
            }
        }
        out.insert(p, x);
        proof {
            assert(out@ == before_out.insert(p as int, x));
            assert forall|i: int, j: int| 0 <= i < j < out@.len() implies text_le((#[trigger] out@[i]).0@, (#[trigger] out@[j]).0@) by {
                if j == p {
                } else if i == p {
                    assert(out@[j] == before_out[j - 1]);
                } else {
                    let ii = if i < p { i } else { i - 1 };
                    let jj = if j < p { j } else { j - 1 };
                    assert(out@[i] == before_out[ii]);
                    assert(out@[j] == before_out[jj]);
                }
            }
            vstd::seq_lib::to_multiset_insert(before_out, p as int, x);
            vstd::seq_lib::to_multiset_build(rest@, x);
            assert(out@.to_multiset().add(rest@.to_multiset()) =~= before_out.to_multiset().add(before_rest.to_multiset()));
        }
    }
    assert(rest@.to_multiset() =~= Multiset::<(String, String, String, u64)>::empty());
    assert(out@.to_multiset().add(rest@.to_multiset()) =~= out@.to_multiset());
    out
}

/// One `provider-type-list` row: id, display name, default endpoint and the
/// number of models, tab-separated.
pub open spec fn provider_type_row(t: (String, String, String, u64)) -> Seq<char> {
    t.0@ + "\t"@ + t.1@ + "\t"@ + t.2@ + "\t"@ + nat_digits(t.3 as nat)
}

/// The `provider-type-list` rows of provider types (id, display name,
/// default endpoint, model count), ordered by id.
pub fn provider_type_rows(types: Vec<(String, String, String, u64)>) -> (r: Vec<String>)
    ensures
        exists|s: Seq<(String, String, String, u64)>|
            s.to_multiset() == types@.to_multiset() && provider_types_sorted(s)
            && views(r@) == s.map_values(|t: (String, String, String, u64)| provider_type_row(t)),
{
    let sorted = sort_provider_types(types);
    let mut rows: Vec<String> = Vec::new();
    let mut i: usize = 0;
    while i < sorted.len()
        invariant
            i <= sorted.len(),
            views(rows@) =~= sorted@.subrange(0, i as int).map_values(|t: (String, String, String, u64)| provider_type_row(t)),
        decreases sorted.len() - i,
    {
        let mut row = sorted[i].0.clone();
        row.append("\t");
        row.append(sorted[i].1.as_str());
        row.append("\t");
        row.append(sorted[i].2.as_str());
        row.append("\t");
        row.append(u64_to_string(sorted[i].3).as_str());
        let ghost before = views(rows@);
        rows.push(row);
        proof {
            reveal_strlit("\t");
            assert(views(rows@) =~= before.push(provider_type_row(sorted@[i as int])));
            assert(sorted@.subrange(0, i + 1).map_values(|t: (String, String, String, u64)| provider_type_row(t))
                =~= sorted@.subrange(0, i as int).map_values(|t: (String, String, String, u64)| provider_type_row(t)).push(provider_type_row(sorted@[i as int])));
        }
        i = i + 1;
    }
    assert(sorted@.subrange(0, sorted.len() as int) =~= sorted@);
    rows
}

} // verus!
