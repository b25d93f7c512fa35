//! Command dispatch: the command tree and the one explicit table of
//! per-command default scopes, applied when no service is named.
//!
//! The defaults are deliberately asymmetric: `start` and `logs` apply
//! to all managed services, while `stop`, `restart` and `status` apply
//! to the vault only. `install`, `update` and `config` always name
//! their service, so their default scope is empty.

use vstd::prelude::*;
use crate::registry::ServiceId;
use crate::text::str_eq;

verus! {

/// The commands of the tool.
#[derive(Debug, Clone, Copy, PartialEq, Eq, Structural)]
pub enum Command {
    Install,
    Update,
    Config,
    Start,
    Stop,
    Restart,
    Status,
    Logs,
}

/// The services a command applies to when none is named.
pub open spec fn spec_default_scope(cmd: Command) -> Seq<ServiceId> {
    match cmd {
        Command::Start => seq![ServiceId::Bitcoin, ServiceId::Vault],
        Command::Logs => seq![ServiceId::Bitcoin, ServiceId::Vault],
        Command::Stop => seq![ServiceId::Vault],
        Command::Restart => seq![ServiceId::Vault],
        Command::Status => seq![ServiceId::Vault],
        _ => Seq::empty(),
    }
}

/// The services a command applies to: the named one, or the command's
/// default scope when none is named.
pub open spec fn spec_scope(cmd: Command, named: Option<ServiceId>) -> Seq<ServiceId> {
    match named {
        Some(s) => seq![s],
        None => spec_default_scope(cmd),
    }
}

/// Resolves the services a command applies to.
pub fn scope_for(cmd: Command, named: Option<ServiceId>) -> (r: Vec<ServiceId>)
    ensures
        r@ == spec_scope(cmd, named),
{
    let r: Vec<ServiceId> = match named {
        Some(s) => vec![s],
        None => match cmd {
            Command::Start => vec![ServiceId::Bitcoin, ServiceId::Vault],
            Command::Logs => vec![ServiceId::Bitcoin, ServiceId::Vault],
            Command::Stop => vec![ServiceId::Vault],
            Command::Restart => vec![ServiceId::Vault],
            Command::Status => vec![ServiceId::Vault],
            _ => Vec::new(),
        },
    };
    proof {
        assert(r@ =~= spec_scope(cmd, named));
    }
    r
}

/// The service a command-line argument names.
pub fn service_from_arg(arg: &str) -> (r: Option<ServiceId>)
    ensures
        arg@ == "bitcoin"@ ==> r == Some(ServiceId::Bitcoin),
        arg@ == "vault"@ ==> r == Some(ServiceId::Vault),
        arg@ != "bitcoin"@ && arg@ != "vault"@ ==> r is None,
{
    proof {
        assert("bitcoin"@ != "vault"@) by {
            reveal_strlit("bitcoin");
            reveal_strlit("vault");
            assert("bitcoin"@.len() == 7);
            assert("vault"@.len() == 5);
        }
    }
    if str_eq(arg, "bitcoin") {
        Some(ServiceId::Bitcoin)
    } else if str_eq(arg, "vault") {
        Some(ServiceId::Vault)
    } else {
        None
    }
}

} // verus!
