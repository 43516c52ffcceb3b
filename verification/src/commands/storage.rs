//! The `storage` command: migration target arguments and usage text.
use vstd::prelude::*;
use crate::commands::chat::arg_at;
use crate::output::{line, CoreCommandOutput};
use crate::text::{concat, str_eq, trim, trim_string, views};

verus! {

/// Reads the path given after `flag`: present, not blank, and absolute
/// (starting at the root `/`); the path is returned trimmed.
pub open spec fn target_root(v: Option<Seq<char>>, flag: Seq<char>) -> Result<Seq<char>, Seq<char>> {
    match v {
        None => Err("missing path after "@ + flag),
        Some(s) => if trim(s).len() == 0 {
            Err("missing path after "@ + flag)
        } else if trim(s)[0] != '/' {
            Err(flag + " path must be absolute: "@ + trim(s))
        } else {
            Ok(trim(s))
        },
    }
}

/// Parses and validates one target root argument.
pub fn parse_target_root(value: Option<&String>, flag: &str) -> (r: Result<String, String>)
    ensures
        match r {
            Ok(p) => target_root(match value { Some(s) => Some(s@), None => None }, flag@) == Ok::<_, Seq<char>>(p@),
            Err(e) => target_root(match value { Some(s) => Some(s@), None => None }, flag@) == Err::<Seq<char>, _>(e@),
        },
{
    match value {
        None => Err(concat("missing path after ", flag)),
        Some(raw) => {
            let t = trim_string(raw.as_str());
            if t.as_str().is_empty() {
                return Err(concat("missing path after ", flag));
            }
            if t.as_str().get_char(0) != '/' {
                let mut e = String::from_str(flag);
                e.append(" path must be absolute: ");
                e.append(t.as_str());
                return Err(e);
            }
            Ok(t)
        },
    }
}

/// Target roots of a storage migration.
#[derive(Clone, Debug)]
pub struct StorageMigrationPlan {
    pub runtime_root: String,
    pub workspace_root: String,
}

/// Usage text of `storage migrate`.
pub open spec fn migrate_usage() -> Seq<char> {
    "usage: operit2 storage migrate --runtime <path> --workspace <path>"@
}

/// The `--runtime` and `--workspace` targets read from position `i` on.
pub open spec fn migrate_from(a: Seq<Seq<char>>, i: int, rt: Option<Seq<char>>, ws: Option<Seq<char>>) -> Result<(Option<Seq<char>>, Option<Seq<char>>), Seq<char>>
    decreases a.len() + 2 - i,
{
    if i < 0 || i >= a.len() {
        Ok((rt, ws))
    } else if a[i] == "--runtime"@ {
        match target_root(arg_at(a, i + 1), "--runtime"@) {
            Err(e) => Err(e),
            Ok(p) => migrate_from(a, i + 2, Some(p), ws),
        }
    } else if a[i] == "--workspace"@ {
        match target_root(arg_at(a, i + 1), "--workspace"@) {
            Err(e) => Err(e),
            Ok(p) => migrate_from(a, i + 2, rt, Some(p)),
        }
    } else {
        Err("unknown storage migrate argument: "@ + a[i])
    }
}

/// The complete reading of `storage migrate`: both targets are required.
pub open spec fn migrate_spec(a: Seq<Seq<char>>) -> Result<(Seq<char>, Seq<char>), Seq<char>> {
    match migrate_from(a, 0, None, None) {
        Err(e) => Err(e),
        Ok((rt, ws)) => match (rt, ws) {
            (Some(r), Some(w)) => Ok((r, w)),
            _ => Err(migrate_usage()),
        },
    }
}

/// Parses storage migration target root arguments.
pub fn parse_migrate_args(args: &[String]) -> (r: Result<StorageMigrationPlan, String>)
    ensures
        match r {
            Ok(p) => migrate_spec(views(args@)) == Ok::<_, Seq<char>>((p.runtime_root@, p.workspace_root@)),
            Err(e) => migrate_spec(views(args@)) == Err::<(Seq<char>, Seq<char>), _>(e@),
        },
{
    let ghost a = views(args@);
    let mut runtime_root: Option<String> = None;
    let mut workspace_root: Option<String> = None;
    let mut index: usize = 0;
    while index < args.len()
        invariant
            a == views(args@),
            index <= args.len(),
            migrate_from(a, 0, None, None) == migrate_from(a, index as int,
                crate::model::opt_view(runtime_root), crate::model::opt_view(workspace_root)),
        decreases args.len() - index,
    {
        let word = args[index].as_str();
        assert(a[index as int] == word@);
        let value = if index + 1 < args.len() { Some(&args[index + 1]) } else { None };
        assert(match value { Some(s) => Some(s@), None => None } == arg_at(a, index + 1));
        if str_eq(word, "--runtime") {
            match parse_target_root(value, "--runtime") {
                Ok(p) => {
                    runtime_root = Some(p);
                },
                Err(e) => return Err(e),
            }
        } else if str_eq(word, "--workspace") {
            match parse_target_root(value, "--workspace") {
                Ok(p) => {
                    workspace_root = Some(p);
                },
                Err(e) => return Err(e),
            }
        } else {
            return Err(concat("unknown storage migrate argument: ", word));
        }
        if index + 1 < args.len() {
            index = index + 2;
        } else {
            index = args.len();
        }
    }
    match (runtime_root, workspace_root) {
        (Some(r), Some(w)) => Ok(StorageMigrationPlan { runtime_root: r, workspace_root: w }),
        _ => Err(String::from_str("usage: operit2 storage migrate --runtime <path> --workspace <path>")),
    }
}

/// The lines `storage` prints when used without a known subcommand.
pub open spec fn storage_usage_text() -> Seq<char> {
    line("operit2 storage paths"@)
        + line("operit2 storage migrate --runtime <path> --workspace <path>"@)
}

/// Prints storage command usage.
pub fn print_storage_usage(output: &mut CoreCommandOutput)
    ensures
        final(output).stdout@ == old(output).stdout@ + storage_usage_text(),
        final(output).stderr@ == old(output).stderr@,
{
    output.push_stdout_line("operit2 storage paths");
    output.push_stdout_line("operit2 storage migrate --runtime <path> --workspace <path>");
    assert(output.stdout@ =~= old(output).stdout@ + storage_usage_text());
}

/// What migrating one storage root does.
#[derive(Clone, Copy, Debug, PartialEq, Eq, Structural)]
pub enum RootMigration {
    /// The root already is the target: nothing moves.
    Unchanged,
    /// There is nothing at the source: the target directory is created.
    Create,
    /// The source directory's entries are copied into the target directory.
    Migrate,
}

/// What migrating the root called `name` from `source` to `target` does, and
/// the line that reports it once done, from what is known of the source: a
/// root that is a file is refused.
pub open spec fn root_migration(name: Seq<char>, source: Seq<char>, target: Seq<char>, same_root: bool, source_exists: bool, source_is_file: bool) -> Result<(RootMigration, Seq<char>), Seq<char>> {
    if same_root {
        Ok((RootMigration::Unchanged, name + "=unchanged\t"@ + target))
    } else if !source_exists {
        Ok((RootMigration::Create, name + "=created\t"@ + target))
    } else if source_is_file {
        Err(name + " source root must be a directory: "@ + source)
    } else {
        Ok((RootMigration::Migrate, name + "=migrated\t"@ + source + "\t"@ + target))
    }
}

/// Decides how one named storage root is migrated into a target directory;
/// `same_root` tells whether source and target are the same path.
pub fn plan_root_migration(name: &str, source: &str, target: &str, same_root: bool, source_exists: bool, source_is_file: bool) -> (r: Result<(RootMigration, String), String>)
    ensures
        match r {
            Ok((m, l)) => root_migration(name@, source@, target@, same_root, source_exists, source_is_file) == Ok::<_, Seq<char>>((m, l@)),
            Err(e) => root_migration(name@, source@, target@, same_root, source_exists, source_is_file) == Err::<(RootMigration, Seq<char>), _>(e@),
        },
{
    let mut l = String::from_str(name);
    if same_root {
        l.append("=unchanged\t");
        l.append(target);
        Ok((RootMigration::Unchanged, l))
    } else if !source_exists {
        l.append("=created\t");
        l.append(target);
        Ok((RootMigration::Create, l))
    } else if source_is_file {
        l.append(" source root must be a directory: ");
        l.append(source);
        Err(l)
    } else {
        l.append("=migrated\t");
        l.append(source);
        l.append("\t");
        l.append(target);
        Ok((RootMigration::Migrate, l))
    }
}

/// How one entry under a migrated root is copied.
#[derive(Clone, Copy, Debug, PartialEq, Eq, Structural)]
pub enum EntryCopy {
    /// A directory: created, then its entries copied.
    Directory,
    /// A file: its parent created, then the file copied.
    File,
}

/// How an entry is copied, from what it is; anything else is refused.
pub open spec fn entry_copy(source: Seq<char>, is_dir: bool, is_file: bool) -> Result<EntryCopy, Seq<char>> {
    if is_dir {
        Ok(EntryCopy::Directory)
    } else if is_file {
        Ok(EntryCopy::File)
    } else {
        Err("unsupported storage entry type: "@ + source)
    }
}

/// Decides how one file-system entry is copied into its target path.
pub fn plan_entry_copy(source: &str, is_dir: bool, is_file: bool) -> (r: Result<EntryCopy, String>)
    ensures
        match r {
            Ok(c) => entry_copy(source@, is_dir, is_file) == Ok::<_, Seq<char>>(c),
            Err(e) => entry_copy(source@, is_dir, is_file) == Err::<EntryCopy, _>(e@),
        },
{
    if is_dir {
        Ok(EntryCopy::Directory)
    } else if is_file {
        Ok(EntryCopy::File)
    } else {
        Err(concat("unsupported storage entry type: ", source))
    }
}

/// The lines naming the runtime and workspace roots.
pub open spec fn roots_text(runtime_root: Seq<char>, workspace_root: Seq<char>) -> Seq<char> {
    line("runtimeRoot="@ + runtime_root) + line("workspaceRoot="@ + workspace_root)
}

/// Prints the active runtime and workspace root directories.
pub fn print_storage_paths(runtime_root: &str, workspace_root: &str, output: &mut CoreCommandOutput)
    ensures
        final(output).stdout@ == old(output).stdout@ + roots_text(runtime_root@, workspace_root@),
        final(output).stderr@ == old(output).stderr@,
{
    output.push_stdout_line(concat("runtimeRoot=", runtime_root).as_str());
    output.push_stdout_line(concat("workspaceRoot=", workspace_root).as_str());
    assert(output.stdout@ =~= old(output).stdout@ + roots_text(runtime_root@, workspace_root@));
}

/// Prints the new roots once both were migrated, and that the storage
/// configuration was updated.
pub fn print_storage_migrated(plan: &StorageMigrationPlan, output: &mut CoreCommandOutput)
    ensures
        final(output).stdout@ == old(output).stdout@ + roots_text(plan.runtime_root@, plan.workspace_root@)
            + line("storageConfig=updated"@),
        final(output).stderr@ == old(output).stderr@,
{
    print_storage_paths(plan.runtime_root.as_str(), plan.workspace_root.as_str(), output);
    output.push_stdout_line("storageConfig=updated");
    assert(output.stdout@ =~= old(output).stdout@ + roots_text(plan.runtime_root@, plan.workspace_root@)
        + line("storageConfig=updated"@));
}

} // verus!
