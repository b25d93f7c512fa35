//! Service descriptor registry: the static metadata of the two managed
//! services, bitcoin node and vault client. The registry is a total
//! function over the closed service set; nothing registers services at
//! run time.

use vstd::prelude::*;
use crate::text::{assoc, lookup, opt_view, pairs_view};

verus! {

/// The closed set of managed services.
#[derive(Debug, Clone, Copy, PartialEq, Eq, Structural)]
pub enum ServiceId {
    Bitcoin,
    Vault,
}

/// The type of a configuration option's value.
#[derive(Debug, Clone, Copy, PartialEq, Eq, Structural)]
pub enum OptionKind {
    /// Free-form text.
    Text,
    /// A decimal TCP port number, at most 65535.
    Port,
}

/// One entry of a service's configuration schema.
#[derive(Debug)]
pub struct OptionSpec {
    pub name: String,
    pub kind: OptionKind,
    /// The schema default, used when nothing else supplies the option;
    /// empty when there is no usable default.
    pub fallback: String,
    /// A required option must end up non-empty for the record to be valid.
    pub required: bool,
    /// Sensitive values are captured without echo and never logged.
    pub sensitive: bool,
}

/// Mathematical view of an [`OptionSpec`].
#[verifier::ext_equal]
pub struct OptionView {
    pub name: Seq<char>,
    pub kind: OptionKind,
    pub fallback: Seq<char>,
    pub required: bool,
    pub sensitive: bool,
}

impl View for OptionSpec {
    type V = OptionView;

    open spec fn view(&self) -> OptionView {
        OptionView {
            name: self.name@,
            kind: self.kind,
            fallback: self.fallback@,
            required: self.required,
            sensitive: self.sensitive,
        }
    }
}

/// Static metadata of one managed service.
#[derive(Debug)]
pub struct ServiceDescriptor {
    pub service: ServiceId,
    /// Distro family name to package name, first match wins.
    pub packages: Vec<(String, String)>,
    /// The configuration schema of the service.
    pub schema: Vec<OptionSpec>,
    /// The unit/process name used for lifecycle control.
    pub process_identifier: String,
}

/// Mathematical view of a [`ServiceDescriptor`].
#[verifier::ext_equal]
pub struct DescriptorView {
    pub service: ServiceId,
    pub packages: Seq<(Seq<char>, Seq<char>)>,
    pub schema: Seq<OptionView>,
    pub process_identifier: Seq<char>,
}

impl View for ServiceDescriptor {
    type V = DescriptorView;

    open spec fn view(&self) -> DescriptorView {
        DescriptorView {
            service: self.service,
            packages: pairs_view(self.packages@),
            schema: self.schema@.map_values(|o: OptionSpec| o@),
            process_identifier: self.process_identifier@,
        }
    }
}

/// The per-family package table of each service.
pub open spec fn spec_packages(id: ServiceId) -> Seq<(Seq<char>, Seq<char>)> {
    match id {
        ServiceId::Bitcoin => seq![
            ("debian"@, "bitcoind"@),
            ("arch"@, "bitcoin-daemon"@),
            ("redhat"@, "bitcoind"@),
        ],
        ServiceId::Vault => seq![
            ("debian"@, "interbtc-vault"@),
            ("arch"@, "interbtc-vault"@),
            ("redhat"@, "interbtc-vault"@),
        ],
    }
}

/// The configuration schema of each service.
pub open spec fn spec_schema(id: ServiceId) -> Seq<OptionView> {
    match id {
        ServiceId::Bitcoin => seq![
            OptionView {
                name: "bitcoin_network"@,
                kind: OptionKind::Text,
                fallback: "mainnet"@,
                required: true,
                sensitive: false,
            },
            OptionView {
                name: "bitcoin_data_dir"@,
                kind: OptionKind::Text,
                fallback: "/var/lib/bitcoind"@,
                required: true,
                sensitive: false,
            },
            OptionView {
                name: "bitcoin_rpc_user"@,
                kind: OptionKind::Text,
                fallback: "bitcoin"@,
                required: true,
                sensitive: false,
            },
            OptionView {
                name: "bitcoin_rpc_password"@,
                kind: OptionKind::Text,
                fallback: ""@,
                required: true,
                sensitive: true,
            },
        ],
        ServiceId::Vault => seq![
            OptionView {
                name: "vault_name"@,
                kind: OptionKind::Text,
                fallback: "vault"@,
                required: true,
                sensitive: false,
            },
            OptionView {
                name: "vault_port"@,
                kind: OptionKind::Port,
                fallback: "3050"@,
                required: true,
                sensitive: false,
            },
            OptionView {
                name: "vault_network"@,
                kind: OptionKind::Text,
                fallback: "kintsugi"@,
                required: true,
                sensitive: false,
            },
            OptionView {
                name: "vault_password"@,
                kind: OptionKind::Text,
                fallback: ""@,
                required: true,
                sensitive: true,
            },
        ],
    }
}

/// The unit/process identifier of each service.
pub open spec fn spec_process_identifier(id: ServiceId) -> Seq<char> {
    match id {
        ServiceId::Bitcoin => "bitcoind"@,
        ServiceId::Vault => "vault"@,
    }
}

/// The whole descriptor of a service, as a value.
pub open spec fn spec_descriptor(id: ServiceId) -> DescriptorView {
    DescriptorView {
        service: id,
        packages: spec_packages(id),
        schema: spec_schema(id),
        process_identifier: spec_process_identifier(id),
    }
}

/// The package of a service for a distro family, if the table has one.
pub open spec fn spec_package_for(id: ServiceId, family: Seq<char>) -> Option<Seq<char>> {
    assoc(spec_packages(id), family)
}

/// Returns the descriptor of a managed service; total over the closed
/// service set.
pub fn describe(id: ServiceId) -> (d: ServiceDescriptor)
    ensures
        d@ == spec_descriptor(id),
{
    let d = match id {
        ServiceId::Bitcoin => ServiceDescriptor {
            service: id,
            packages: vec![
                ("debian".to_owned(), "bitcoind".to_owned()),
                ("arch".to_owned(), "bitcoin-daemon".to_owned()),
                ("redhat".to_owned(), "bitcoind".to_owned()),
            ],
            schema: vec![
                OptionSpec {
                    name: "bitcoin_network".to_owned(),
                    kind: OptionKind::Text,
                    fallback: "mainnet".to_owned(),
                    required: true,
                    sensitive: false,
                },
                OptionSpec {
                    name: "bitcoin_data_dir".to_owned(),
                    kind: OptionKind::Text,
                    fallback: "/var/lib/bitcoind".to_owned(),
                    required: true,
                    sensitive: false,
                },
                OptionSpec {
                    name: "bitcoin_rpc_user".to_owned(),
                    kind: OptionKind::Text,
                    fallback: "bitcoin".to_owned(),
                    required: true,
                    sensitive: false,
                },
                OptionSpec {
                    name: "bitcoin_rpc_password".to_owned(),
                    kind: OptionKind::Text,
                    fallback: "".to_owned(),
                    required: true,
                    sensitive: true,
                },
            ],
            process_identifier: "bitcoind".to_owned(),
        },
        ServiceId::Vault => ServiceDescriptor {
            service: id,
            packages: vec![
                ("debian".to_owned(), "interbtc-vault".to_owned()),
                ("arch".to_owned(), "interbtc-vault".to_owned()),
                ("redhat".to_owned(), "interbtc-vault".to_owned()),
            ],
            schema: vec![
                OptionSpec {
                    name: "vault_name".to_owned(),
                    kind: OptionKind::Text,
                    fallback: "vault".to_owned(),
                    required: true,
                    sensitive: false,
                },
                OptionSpec {
                    name: "vault_port".to_owned(),
                    kind: OptionKind::Port,
                    fallback: "3050".to_owned(),
                    required: true,
                    sensitive: false,
                },
                OptionSpec {
                    name: "vault_network".to_owned(),
                    kind: OptionKind::Text,
                    fallback: "kintsugi".to_owned(),
                    required: true,
                    sensitive: false,
                },
                OptionSpec {
                    name: "vault_password".to_owned(),
                    kind: OptionKind::Text,
                    fallback: "".to_owned(),
                    required: true,
                    sensitive: true,
                },
            ],
            process_identifier: "vault".to_owned(),
        },
    };
    proof {
        assert(d@.packages =~~= spec_packages(id));
        assert(d@.schema =~~= spec_schema(id));
        assert(d@ =~~= spec_descriptor(id));
    }
    d
}

impl ServiceDescriptor {
    /// The package name for a distro family, if the descriptor maps it.
    pub fn package_for(&self, family: &str) -> (r: Option<String>)
        ensures
            opt_view(r) == assoc(self@.packages, family@),
    {
        lookup(&self.packages, family)
    }
}

} // verus!
