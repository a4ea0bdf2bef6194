//! Installer command-line arguments. GUI by default; the other modes are in `Mode`.

use vstd::prelude::*;

use crate::text::chars_of;

verus! {

/// Installer mode.
#[derive(Debug, Clone, Copy, PartialEq, Eq, Structural)]
pub enum Mode {
    Gui,
    Repair,
    Uninstall,
    StartService,
    SilentInstall,
    SilentUninstall,
}

/// Parsed installer flags.
#[derive(Debug, Clone, Copy, Default, PartialEq, Eq, Structural)]
pub struct SetupArgs {
    pub silent: bool,
    pub uninstall: bool,
    pub repair: bool,
    pub start_service: bool,
    pub keep_password: bool,
    pub purge: bool,
}

/// Why a command line was refused.
#[derive(Debug, Clone, PartialEq, Eq)]
pub enum SetupArgsError {
    /// An argument that is not one of the six flags.
    UnknownArgument(String),
    /// `--keep-password` without `--silent`.
    KeepPasswordNeedsSilent,
    /// `--purge` without `--uninstall`.
    PurgeNeedsUninstall,
    /// More than one of `--uninstall`, `--repair`, `--start-service`.
    ExclusiveModes,
    /// `--silent` together with `--start-service`.
    SilentWithStartService,
}

impl SetupArgsError {
    /// Human-readable message.
    pub fn message(&self) -> (r: String)
        ensures
            match self {
                SetupArgsError::UnknownArgument(a) => r@ == "unknown argument \""@ + a@ + "\""@,
                SetupArgsError::KeepPasswordNeedsSilent => r@ == "--keep-password requires --silent"@,
                SetupArgsError::PurgeNeedsUninstall => r@ == "--purge requires --uninstall"@,
                SetupArgsError::ExclusiveModes => r@
                    == "--uninstall/--repair/--start-service are mutually exclusive"@,
                SetupArgsError::SilentWithStartService => r@
                    == "--silent cannot combine with --start-service"@,
            },
    {
        match self {
            SetupArgsError::UnknownArgument(a) => {
                let mut out = String::from_str("unknown argument \"");
                out.append(a.as_str());
                out.append("\"");
                out
            },
            SetupArgsError::KeepPasswordNeedsSilent => String::from_str(
                "--keep-password requires --silent",
            ),
            SetupArgsError::PurgeNeedsUninstall => String::from_str("--purge requires --uninstall"),
            SetupArgsError::ExclusiveModes => String::from_str(
                "--uninstall/--repair/--start-service are mutually exclusive",
            ),
            SetupArgsError::SilentWithStartService => String::from_str(
                "--silent cannot combine with --start-service",
            ),
        }
    }
}

/// Abstract outcome: the arguments or the refusal (an unknown argument is
/// represented by its text).
pub enum ArgsOutcome {
    Args(SetupArgs),
    Unknown(Seq<char>),
    Invalid(SetupArgsError),
}

/// One flag applied to the arguments so far; `None` for an unknown argument.
pub open spec fn apply_flag(a: SetupArgs, arg: Seq<char>) -> Option<SetupArgs> {
    if arg == "--silent"@ {
        Some(SetupArgs { silent: true, ..a })
    } else if arg == "--uninstall"@ {
        Some(SetupArgs { uninstall: true, ..a })
    } else if arg == "--repair"@ {
        Some(SetupArgs { repair: true, ..a })
    } else if arg == "--start-service"@ {
        Some(SetupArgs { start_service: true, ..a })
    } else if arg == "--keep-password"@ {
        Some(SetupArgs { keep_password: true, ..a })
    } else if arg == "--purge"@ {
        Some(SetupArgs { purge: true, ..a })
    } else {
        None
    }
}

/// Flags of an argument list, or the first unknown argument.
pub open spec fn spec_flags(args: Seq<Seq<char>>) -> Result<SetupArgs, Seq<char>>
    decreases args.len(),
{
    if args.len() == 0 {
        Ok(SetupArgs {
            silent: false,
            uninstall: false,
            repair: false,
            start_service: false,
            keep_password: false,
            purge: false,
        })
    } else {
        match spec_flags(args.drop_last()) {
            Err(e) => Err(e),
            Ok(a) => match apply_flag(a, args.last()) {
                Some(b) => Ok(b),
                None => Err(args.last()),
            },
        }
    }
}

/// Mode of valid flags, or the first rule they break.
pub open spec fn spec_mode(a: SetupArgs) -> Result<Mode, SetupArgsError> {
    let exclusive = (if a.uninstall {
        1int
    } else {
        0
    }) + (if a.repair {
        1int
    } else {
        0
    }) + (if a.start_service {
        1int
    } else {
        0
    });
    if a.keep_password && !a.silent {
        Err(SetupArgsError::KeepPasswordNeedsSilent)
    } else if a.purge && !a.uninstall {
        Err(SetupArgsError::PurgeNeedsUninstall)
    } else if exclusive > 1 {
        Err(SetupArgsError::ExclusiveModes)
    } else if a.silent && a.start_service {
        Err(SetupArgsError::SilentWithStartService)
    } else if a.silent && a.uninstall {
        Ok(Mode::SilentUninstall)
    } else if a.silent {
        Ok(Mode::SilentInstall)
    } else if a.uninstall {
        Ok(Mode::Uninstall)
    } else if a.repair {
        Ok(Mode::Repair)
    } else if a.start_service {
        Ok(Mode::StartService)
    } else {
        Ok(Mode::Gui)
    }
}

/// The text of every argument.
pub open spec fn arg_views(args: Seq<String>) -> Seq<Seq<char>> {
    args.map_values(|s: String| s@)
}

fn eq_lit(a: &[char], lit: &str) -> (r: bool)
    ensures
        r == (a@ == lit@),
{
    let b = chars_of(lit);
    if a.len() != b.len() {
        return false;
    }
    let mut i: usize = 0;
    while i < a.len()
        invariant
            i <= a@.len(),
            a@.len() == b@.len(),
            b@ == lit@,
            forall|j: int| 0 <= j < i ==> a@[j] == b@[j],
        decreases a.len() - i,
    {
        if a[i] != b[i] {
            return false;
        }
        i = i + 1;
    }
    assert(a@ =~= b@);
    true
}

impl SetupArgs {
    /// Parses the flags and checks their combination, so that the caller
    /// only ever sees validated arguments.
    pub fn parse(args: &[String]) -> (r: Result<Self, SetupArgsError>)
        ensures
            match spec_flags(arg_views(args@)) {
                Err(u) => r matches Err(SetupArgsError::UnknownArgument(s)) && s@ == u,
                Ok(a) => match spec_mode(a) {
                    Ok(_) => r == Ok::<SetupArgs, SetupArgsError>(a),
                    Err(e) => r == Err::<SetupArgs, SetupArgsError>(e),
                },
            },
    {
        let mut out = SetupArgs {
            silent: false,
            uninstall: false,
            repair: false,
            start_service: false,
            keep_password: false,
            purge: false,
        };
        let mut i: usize = 0;
        while i < args.len()
            invariant
                i <= args@.len(),
                spec_flags(arg_views(args@).take(i as int)) == Ok::<SetupArgs, Seq<char>>(out),
            decreases args.len() - i,
        {
            let a = chars_of(args[i].as_str());
            let ghost views = arg_views(args@);
            assert(views.take(i + 1).drop_last() =~= views.take(i as int));
            assert(views.take(i + 1).last() == args@[i as int]@);
            if eq_lit(a.as_slice(), "--silent") {
                out.silent = true;
            } else if eq_lit(a.as_slice(), "--uninstall") {
                out.uninstall = true;
            } else if eq_lit(a.as_slice(), "--repair") {
                out.repair = true;
            } else if eq_lit(a.as_slice(), "--start-service") {
                out.start_service = true;
            } else if eq_lit(a.as_slice(), "--keep-password") {
                out.keep_password = true;
            } else if eq_lit(a.as_slice(), "--purge") {
                out.purge = true;
            } else {
                proof {
                    lemma_flags_error_persists(views, i as int + 1);
                }
                return Err(SetupArgsError::UnknownArgument(args[i].clone()));
            }
            i = i + 1;
        }
        assert(arg_views(args@).take(args@.len() as int) =~= arg_views(args@));
        match out.mode() {
            Ok(_) => Ok(out),
            Err(e) => Err(e),
        }
    }

    /// The mode selected by the flags, or the rule they break: keep-password
    /// needs silent, purge needs uninstall, uninstall/repair/start-service
    /// exclude each other, silent excludes start-service.
    pub fn mode(&self) -> (r: Result<Mode, SetupArgsError>)
        ensures
            r == spec_mode(*self),
    {
        if self.keep_password && !self.silent {
            return Err(SetupArgsError::KeepPasswordNeedsSilent);
        }
        if self.purge && !self.uninstall {
            return Err(SetupArgsError::PurgeNeedsUninstall);
        }
        let mut exclusive: u8 = 0;
        if self.uninstall {
            exclusive = exclusive + 1;
        }
        if self.repair {
            exclusive = exclusive + 1;
        }
        if self.start_service {
            exclusive = exclusive + 1;
        }
        if exclusive > 1 {
            return Err(SetupArgsError::ExclusiveModes);
        }
        if self.silent && self.start_service {
            return Err(SetupArgsError::SilentWithStartService);
        }
        if self.silent && self.uninstall {
            Ok(Mode::SilentUninstall)
        } else if self.silent {
            Ok(Mode::SilentInstall)
        } else if self.uninstall {
            Ok(Mode::Uninstall)
        } else if self.repair {
            Ok(Mode::Repair)
        } else if self.start_service {
            Ok(Mode::StartService)
        } else {
            Ok(Mode::Gui)
        }
    }
}

/// Once an argument is unknown, the whole list reports that argument.
proof fn lemma_flags_error_persists(args: Seq<Seq<char>>, n: int)
    requires
        0 < n <= args.len(),
        spec_flags(args.take(n)) is Err,
    ensures
        spec_flags(args) == spec_flags(args.take(n)),
    decreases args.len() - n,
{
    if n < args.len() {
        assert(args.take(n + 1).drop_last() =~= args.take(n));
        lemma_flags_error_persists(args, n + 1);
    } else {
        assert(args.take(n) =~= args);
    }
}

} // verus!
