//! The `local-models` command: row fields and usage text.
use vstd::prelude::*;
use crate::local_model_provider::{kind_name, modelKindName, LocalModelKind};
use crate::num::{decimal, i64_to_string, u64_to_string};
use crate::commands::chat::{bool_str, bool_text};
use crate::text::{str_eq, trim, trim_string, views};
use crate::output::{line, CoreCommandOutput};

verus! {

/// Formats an optional verification timestamp for CLI output.
pub fn optional_timestamp(value: Option<i64>) -> (r: String)
    ensures
        r@ == match value {
            Some(t) => decimal(t as int),
            None => "not-verified"@,
        },
{
    match value {
        Some(timestamp) => i64_to_string(timestamp),
        None => String::from_str("not-verified"),
    }
}

/// The lines `local-models` prints when used without a known subcommand.
pub open spec fn local_models_usage_text() -> Seq<char> {
    line("operit2 local-models paths"@)
        + line("operit2 local-models catalog"@)
        + line("operit2 local-models show <model-id> <version>"@)
        + line("operit2 local-models installed"@)
        + line("operit2 local-models installed-show <model-id> <version>"@)
        + line("operit2 local-models install <model-id> <version>"@)
        + line("operit2 local-models install-statuses"@)
        + line("operit2 local-models install-status <model-id> <version>"@)
        + line("operit2 local-models install-cancel <model-id> <version>"@)
        + line("operit2 local-models verify <model-id> <version>"@)
        + line("operit2 local-models delete <model-id> <version>"@)
        + line("operit2 local-models engine-delete <engine-id> <version>"@)
}

/// Prints local model repository command usage.
pub fn print_local_models_usage(output: &mut CoreCommandOutput)
    ensures
        final(output).stdout@ == old(output).stdout@ + local_models_usage_text(),
        final(output).stderr@ == old(output).stderr@,
{
    output.push_stdout_line("operit2 local-models paths");
    output.push_stdout_line("operit2 local-models catalog");
    output.push_stdout_line("operit2 local-models show <model-id> <version>");
    output.push_stdout_line("operit2 local-models installed");
    output.push_stdout_line("operit2 local-models installed-show <model-id> <version>");
    output.push_stdout_line("operit2 local-models install <model-id> <version>");
    output.push_stdout_line("operit2 local-models install-statuses");
    output.push_stdout_line("operit2 local-models install-status <model-id> <version>");
    output.push_stdout_line("operit2 local-models install-cancel <model-id> <version>");
    output.push_stdout_line("operit2 local-models verify <model-id> <version>");
    output.push_stdout_line("operit2 local-models delete <model-id> <version>");
    output.push_stdout_line("operit2 local-models engine-delete <engine-id> <version>");
    assert(output.stdout@ =~= old(output).stdout@ + local_models_usage_text());
}

/// Returns the stable display name for a local model kind.
pub fn local_model_kind_name(kind: &LocalModelKind) -> (r: &'static str)
    ensures
        r@ == kind_name(*kind),
{
    modelKindName(kind)
}

/// One `local-models` subcommand with its arguments read.
#[derive(Clone, Debug)]
pub enum LocalModelsRequest {
    Usage,
    Paths,
    Catalog,
    Show { model_id: String, version: String },
    Installed,
    InstalledShow { model_id: String, version: String },
    Install { model_id: String, version: String },
    InstallStatuses,
    InstallStatus { model_id: String, version: String },
    InstallCancel { model_id: String, version: String },
    Verify { model_id: String, version: String },
    Delete { model_id: String, version: String },
    EngineDelete { engine_id: String, version: String },
}

/// The subcommands that take no arguments.
pub open spec fn bare_request(c: Seq<char>) -> Option<int> {
    if c == "paths"@ { Some(0) }
    else if c == "catalog"@ { Some(1) }
    else if c == "installed"@ { Some(2) }
    else if c == "install-statuses"@ { Some(3) }
    else { None }
}

/// The subcommands that take an id and a version.
pub open spec fn pair_request(c: Seq<char>) -> Option<int> {
    if c == "show"@ { Some(0) }
    else if c == "installed-show"@ { Some(1) }
    else if c == "install"@ { Some(2) }
    else if c == "install-status"@ { Some(3) }
    else if c == "install-cancel"@ { Some(4) }
    else if c == "verify"@ { Some(5) }
    else if c == "delete"@ { Some(6) }
    else if c == "engine-delete"@ { Some(7) }
    else { None }
}

/// Which request `local-models` arguments make: a subcommand with exactly
/// its arguments, usage otherwise. The number says which of the
/// argument-less (`Left`) or id-and-version (`Right`) subcommands it is.
pub open spec fn local_models_request(a: Seq<Seq<char>>) -> Option<Result<int, (int, Seq<char>, Seq<char>)>> {
    if a.len() == 1 && bare_request(a[0]) is Some {
        Some(Ok(bare_request(a[0])->Some_0))
    } else if a.len() == 3 && pair_request(a[0]) is Some {
        Some(Err((pair_request(a[0])->Some_0, a[1], a[2])))
    } else {
        None
    }
}

/// The plain reading of a request: what `local_models_request` gives for it.
pub open spec fn local_models_request_view(r: LocalModelsRequest) -> Option<Result<int, (int, Seq<char>, Seq<char>)>> {
    match r {
        LocalModelsRequest::Usage => None,
        LocalModelsRequest::Paths => Some(Ok(0)),
        LocalModelsRequest::Catalog => Some(Ok(1)),
        LocalModelsRequest::Installed => Some(Ok(2)),
        LocalModelsRequest::InstallStatuses => Some(Ok(3)),
        LocalModelsRequest::Show { model_id, version } => Some(Err((0, model_id@, version@))),
        LocalModelsRequest::InstalledShow { model_id, version } => Some(Err((1, model_id@, version@))),
        LocalModelsRequest::Install { model_id, version } => Some(Err((2, model_id@, version@))),
        LocalModelsRequest::InstallStatus { model_id, version } => Some(Err((3, model_id@, version@))),
        LocalModelsRequest::InstallCancel { model_id, version } => Some(Err((4, model_id@, version@))),
        LocalModelsRequest::Verify { model_id, version } => Some(Err((5, model_id@, version@))),
        LocalModelsRequest::Delete { model_id, version } => Some(Err((6, model_id@, version@))),
        LocalModelsRequest::EngineDelete { engine_id, version } => Some(Err((7, engine_id@, version@))),
    }
}

/// Reads the arguments of `local-models` into the request they make.
pub fn parse_local_models_command(args: &[String]) -> (r: LocalModelsRequest)
    ensures
        local_models_request_view(r) == local_models_request(views(args@)),
{
    let ghost a = views(args@);
    if args.len() == 0 {
        return LocalModelsRequest::Usage;
    }
    let c = args[0].as_str();
    assert(a[0] == c@);
    if args.len() == 1 {
        if str_eq(c, "paths") { return LocalModelsRequest::Paths; }
        if str_eq(c, "catalog") { return LocalModelsRequest::Catalog; }
        if str_eq(c, "installed") { return LocalModelsRequest::Installed; }
        if str_eq(c, "install-statuses") { return LocalModelsRequest::InstallStatuses; }
        return LocalModelsRequest::Usage;
    }
    if args.len() != 3 {
        return LocalModelsRequest::Usage;
    }
    assert(a[1] == args@[1]@ && a[2] == args@[2]@);
    let id = args[1].clone();
    let version = args[2].clone();
    if str_eq(c, "show") { LocalModelsRequest::Show { model_id: id, version } }
    else if str_eq(c, "installed-show") { LocalModelsRequest::InstalledShow { model_id: id, version } }
    else if str_eq(c, "install") { LocalModelsRequest::Install { model_id: id, version } }
    else if str_eq(c, "install-status") { LocalModelsRequest::InstallStatus { model_id: id, version } }
    else if str_eq(c, "install-cancel") { LocalModelsRequest::InstallCancel { model_id: id, version } }
    else if str_eq(c, "verify") { LocalModelsRequest::Verify { model_id: id, version } }
    else if str_eq(c, "delete") { LocalModelsRequest::Delete { model_id: id, version } }
    else if str_eq(c, "engine-delete") { LocalModelsRequest::EngineDelete { engine_id: id, version } }
    else { LocalModelsRequest::Usage }
}

/// What an installed-model row shows of a model.
#[derive(Clone, Debug)]
pub struct InstalledModelRow {
    pub id: String,
    pub version: String,
    pub kind: LocalModelKind,
    pub declared_byte_size: u64,
    pub installed_at_ms: i64,
    pub verified_at_ms: Option<i64>,
    pub storage_path: String,
}

/// `Some(t)` as its decimal text, `None` as `not-verified`.
pub open spec fn timestamp_text(v: Option<i64>) -> Seq<char> {
    match v {
        Some(t) => decimal(t as int),
        None => "not-verified"@,
    }
}

/// The tab-separated row of one installed model.
pub open spec fn installed_model_row(m: InstalledModelRow) -> Seq<char> {
    "model="@ + m.id@ + "@"@ + m.version@ + "\tkind="@ + kind_name(m.kind) + "\tbytes="@ + decimal(m.declared_byte_size as int)
        + "\tinstalledAtMs="@ + decimal(m.installed_at_ms as int) + "\tverifiedAtMs="@ + timestamp_text(m.verified_at_ms)
        + "\tstoragePath="@ + m.storage_path@
}

/// Prints one installed model as a tab-separated row.
pub fn print_installed_model_row(model: &InstalledModelRow, output: &mut CoreCommandOutput)
    ensures
        final(output).stdout@ == old(output).stdout@ + line(installed_model_row(*model)),
        final(output).stderr@ == old(output).stderr@,
{
    let mut r = String::from_str("model=");
    r.append(model.id.as_str());
    r.append("@");
    r.append(model.version.as_str());
    r.append("\tkind=");
    r.append(local_model_kind_name(&model.kind));
    r.append("\tbytes=");
    let b = u64_to_string(model.declared_byte_size);
    r.append(b.as_str());
    r.append("\tinstalledAtMs=");
    let i = i64_to_string(model.installed_at_ms);
    r.append(i.as_str());
    r.append("\tverifiedAtMs=");
    let v = optional_timestamp(model.verified_at_ms);
    r.append(v.as_str());
    r.append("\tstoragePath=");
    r.append(model.storage_path.as_str());
    output.push_stdout_line(r.as_str());
}

/// What an installed-engine row shows of an engine.
#[derive(Clone, Debug)]
pub struct InstalledEngineRow {
    pub id: String,
    pub version: String,
    pub target_segment: String,
    pub byte_size: u64,
    pub installed_at_ms: i64,
    pub verified_at_ms: Option<i64>,
    pub storage_path: String,
}

/// The tab-separated row of one installed engine.
pub open spec fn installed_engine_row(e: InstalledEngineRow) -> Seq<char> {
    "engine="@ + e.id@ + "@"@ + e.version@ + "\ttarget="@ + e.target_segment@ + "\tbytes="@ + decimal(e.byte_size as int)
        + "\tinstalledAtMs="@ + decimal(e.installed_at_ms as int) + "\tverifiedAtMs="@ + timestamp_text(e.verified_at_ms)
        + "\tstoragePath="@ + e.storage_path@
}

/// Prints one installed engine as a tab-separated row.
pub fn print_installed_engine_row(engine: &InstalledEngineRow, output: &mut CoreCommandOutput)
    ensures
        final(output).stdout@ == old(output).stdout@ + line(installed_engine_row(*engine)),
        final(output).stderr@ == old(output).stderr@,
{
    let mut r = String::from_str("engine=");
    r.append(engine.id.as_str());
    r.append("@");
    r.append(engine.version.as_str());
    r.append("\ttarget=");
    r.append(engine.target_segment.as_str());
    r.append("\tbytes=");
    let b = u64_to_string(engine.byte_size);
    r.append(b.as_str());
    r.append("\tinstalledAtMs=");
    let i = i64_to_string(engine.installed_at_ms);
    r.append(i.as_str());
    r.append("\tverifiedAtMs=");
    let v = optional_timestamp(engine.verified_at_ms);
    r.append(v.as_str());
    r.append("\tstoragePath=");
    r.append(engine.storage_path.as_str());
    output.push_stdout_line(r.as_str());
}

/// What a catalog row shows of one built-in model and its installation state.
#[derive(Clone, Debug)]
pub struct CatalogRow {
    pub id: String,
    pub version: String,
    pub kind: LocalModelKind,
    /// The engine the model declares it needs, as id and version.
    pub engine: Option<(String, String)>,
    pub declared_byte_size: u64,
    pub license: String,
    pub platform_compatible: bool,
    pub model_installed: bool,
    pub engine_installed: bool,
}

/// The engine column of a catalog row.
pub open spec fn engine_text(e: Option<(String, String)>) -> Seq<char> {
    match e {
        Some((id, version)) => id@ + "@"@ + version@,
        None => "not-declared"@,
    }
}

/// The tab-separated row of one catalog model.
pub open spec fn catalog_row(c: CatalogRow) -> Seq<char> {
    c.id@ + "\tversion="@ + c.version@ + "\tkind="@ + kind_name(c.kind) + "\tengine="@ + engine_text(c.engine)
        + "\tbytes="@ + decimal(c.declared_byte_size as int) + "\tlicense="@ + c.license@
        + "\tcompatible="@ + bool_text(c.platform_compatible) + "\tmodelInstalled="@ + bool_text(c.model_installed)
        + "\tengineInstalled="@ + bool_text(c.engine_installed)
}

/// Prints one built-in model status as a tab-separated row.
pub fn print_catalog_row(status: &CatalogRow, output: &mut CoreCommandOutput)
    ensures
        final(output).stdout@ == old(output).stdout@ + line(catalog_row(*status)),
        final(output).stderr@ == old(output).stderr@,
{
    let mut r = status.id.clone();
    r.append("\tversion=");
    r.append(status.version.as_str());
    r.append("\tkind=");
    r.append(local_model_kind_name(&status.kind));
    r.append("\tengine=");
    match &status.engine {
        Some((id, version)) => {
            r.append(id.as_str());
            r.append("@");
            r.append(version.as_str());
        },
        None => r.append("not-declared"),
    }
    r.append("\tbytes=");
    let b = u64_to_string(status.declared_byte_size);
    r.append(b.as_str());
    r.append("\tlicense=");
    r.append(status.license.as_str());
    r.append("\tcompatible=");
    r.append(bool_str(status.platform_compatible));
    r.append("\tmodelInstalled=");
    r.append(bool_str(status.model_installed));
    r.append("\tengineInstalled=");
    r.append(bool_str(status.engine_installed));
    output.push_stdout_line(r.as_str());
}

/// What `local-models install` reports of a finished installation.
#[derive(Clone, Debug)]
pub struct InstallReport {
    pub model_id: String,
    pub model_version: String,
    pub model_downloaded_bytes: u64,
    pub model_storage_path: String,
    pub engine_id: String,
    pub engine_version: String,
    pub engine_target_segment: String,
    pub engine_downloaded_bytes: u64,
    pub engine_storage_path: String,
}

/// The two lines of an installation report: the model, then its engine.
pub open spec fn install_report_text(r: InstallReport) -> Seq<char> {
    line("installedModel="@ + r.model_id@ + "@"@ + r.model_version@ + "\tmodelBytes="@
        + decimal(r.model_downloaded_bytes as int) + "\tmodelStoragePath="@ + r.model_storage_path@)
        + line("installedEngine="@ + r.engine_id@ + "@"@ + r.engine_version@ + "\ttarget="@
        + r.engine_target_segment@ + "\tengineBytes="@ + decimal(r.engine_downloaded_bytes as int)
        + "\tengineStoragePath="@ + r.engine_storage_path@)
}

/// Prints the installed model and engine of one installation.
pub fn print_install_report(report: &InstallReport, output: &mut CoreCommandOutput)
    ensures
        final(output).stdout@ == old(output).stdout@ + install_report_text(*report),
        final(output).stderr@ == old(output).stderr@,
{
    let mut m = String::from_str("installedModel=");
    m.append(report.model_id.as_str());
    m.append("@");
    m.append(report.model_version.as_str());
    m.append("\tmodelBytes=");
    m.append(u64_to_string(report.model_downloaded_bytes).as_str());
    m.append("\tmodelStoragePath=");
    m.append(report.model_storage_path.as_str());
    output.push_stdout_line(m.as_str());
    let mut e = String::from_str("installedEngine=");
    e.append(report.engine_id.as_str());
    e.append("@");
    e.append(report.engine_version.as_str());
    e.append("\ttarget=");
    e.append(report.engine_target_segment.as_str());
    e.append("\tengineBytes=");
    e.append(u64_to_string(report.engine_downloaded_bytes).as_str());
    e.append("\tengineStoragePath=");
    e.append(report.engine_storage_path.as_str());
    output.push_stdout_line(e.as_str());
    assert(output.stdout@ =~= old(output).stdout@ + install_report_text(*report));
}

/// `id@version`.
pub open spec fn versioned(id: Seq<char>, version: Seq<char>) -> Seq<char> {
    id + "@"@ + version
}

/// `prefix` followed by `id@version`.
fn versioned_line(prefix: &str, id: &str, version: &str) -> (r: String)
    ensures
        r@ == prefix@ + versioned(id@, version@),
{
    let mut r = String::from_str(prefix);
    r.append(id);
    r.append("@");
    r.append(version);
    r
}

/// The line confirming that a model and its engine were verified.
pub open spec fn verified_model_line(id: Seq<char>, version: Seq<char>) -> Seq<char> {
    "verifiedModel="@ + versioned(id, version) + "\tmodel=true\tengine=true"@
}

/// Prints that a model and its engine were verified.
pub fn print_verified_model(model_id: &str, version: &str, output: &mut CoreCommandOutput)
    ensures
        final(output).stdout@ == old(output).stdout@ + line(verified_model_line(model_id@, version@)),
        final(output).stderr@ == old(output).stderr@,
{
    let mut r = versioned_line("verifiedModel=", model_id, version);
    r.append("\tmodel=true\tengine=true");
    output.push_stdout_line(r.as_str());
}

/// Prints that a model was deleted.
pub fn print_deleted_model(model_id: &str, version: &str, output: &mut CoreCommandOutput)
    ensures
        final(output).stdout@ == old(output).stdout@ + line("deletedModel="@ + versioned(model_id@, version@)),
        final(output).stderr@ == old(output).stderr@,
{
    let r = versioned_line("deletedModel=", model_id, version);
    output.push_stdout_line(r.as_str());
}

/// Prints that an engine was deleted.
pub fn print_deleted_engine(engine_id: &str, version: &str, output: &mut CoreCommandOutput)
    ensures
        final(output).stdout@ == old(output).stdout@ + line("deletedEngine="@ + versioned(engine_id@, version@)),
        final(output).stderr@ == old(output).stderr@,
{
    let r = versioned_line("deletedEngine=", engine_id, version);
    output.push_stdout_line(r.as_str());
}

/// The error when no installation operation exists for a model version:
/// the operation is named by the trimmed id and version.
pub fn install_operation_not_found(model_id: &str, version: &str) -> (r: String)
    ensures
        r@ == "local model install operation not found: "@ + versioned(trim(model_id@), trim(version@)),
{
    let id = trim_string(model_id);
    let v = trim_string(version);
    versioned_line("local model install operation not found: ", id.as_str(), v.as_str())
}

/// The error when the catalog has no entry for a model version.
pub fn catalog_entry_not_found(model_id: &str, version: &str) -> (r: String)
    ensures
        r@ == "local model catalog entry not found: "@ + versioned(model_id@, version@),
{
    versioned_line("local model catalog entry not found: ", model_id, version)
}

/// The error when no installed model matches a model version.
pub fn installed_model_not_found(model_id: &str, version: &str) -> (r: String)
    ensures
        r@ == "installed local model not found: "@ + versioned(model_id@, version@),
{
    versioned_line("installed local model not found: ", model_id, version)
}

} // verus!
