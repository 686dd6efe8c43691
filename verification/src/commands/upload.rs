//! What `git-ss upload` uploads, decided from its arguments.

use vstd::prelude::*;

use crate::cli::{is_workdir_target, UploadArgs, UploadTarget};
use crate::commands::CommandError;
use crate::metadata::{format_default_id, UploadKind};
use crate::text::owned;
use crate::time::{default_id_text, now_local, ClockReading};

verus! {

/// The snapshot that an upload command creates.
#[derive(Debug)]
pub struct UploadPlan {
    /// Working-directory or ref snapshot.
    pub kind: UploadKind,
    /// Snapshot id.
    pub id: String,
    /// Remote to push to.
    pub remote: String,
    /// Source to snapshot: `HEAD` for the working directory, else the ref expression.
    pub source: String,
    /// Whether ignored files are included.
    pub include_ignored: bool,
}

/// Decides what an upload command creates. `--include-ignored` is refused for a ref; an
/// absent id defaults to the current local time as `YYYYMMDD-HHMMSS`, read from the clock
/// during the call.
pub fn upload_plan(args: &UploadArgs) -> (r: Result<UploadPlan, CommandError>)
    ensures
        r is Err <==> args.include_ignored && !is_workdir_target(args.target@),
        r matches Err(e) ==> e is IncludeIgnoredRequiresWorkdir,
        r matches Ok(p) ==> {
            &&& p.kind == (if is_workdir_target(args.target@) {
                UploadKind::Workdir
            } else {
                UploadKind::Ref
            })
            &&& p.remote@ == args.remote@
            &&& p.source@ == (if is_workdir_target(args.target@) {
                "HEAD"@
            } else {
                args.target@
            })
            &&& p.include_ignored == args.include_ignored
            &&& match args.id {
                Some(id) => p.id@ == id@,
                None => exists|c: ClockReading| p.id@ == default_id_text(#[trigger] c.reading()),
            }
        },
{
    let target = args.parsed_target();
    let workdir = match target {
        UploadTarget::Workdir => true,
        UploadTarget::Ref(_) => false,
    };
    if args.include_ignored && !workdir {
        return Err(CommandError::IncludeIgnoredRequiresWorkdir);
    }
    let id = match &args.id {
        Some(id) => id.clone(),
        None => {
            let now = now_local();
            format_default_id(now.time())
        },
    };
    Ok(
        UploadPlan {
            kind: if workdir {
                UploadKind::Workdir
            } else {
                UploadKind::Ref
            },
            id,
            remote: args.remote.clone(),
            source: if workdir {
                owned("HEAD")
            } else {
                args.target.clone()
            },
            include_ignored: args.include_ignored,
        },
    )
}

} // verus!
