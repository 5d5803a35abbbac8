//! Process-wide identity facts, injected rather than compiled in, so
//! the validation rules can be checked against arbitrary identities.

use vstd::prelude::*;

use crate::account::Pubkey;

verus! {

/// The identities the engine validates against: the token programs a
/// mint may belong to, and the one designated seed identity allowed to
/// bootstrap records for mints it does not control.
#[derive(Debug)]
pub struct EngineConfig {
    /// Programs accepted as owners of a mint account.
    pub token_program_ids: Vec<Pubkey>,
    /// The seed identity of the bootstrap exemption.
    pub seed_authority: Pubkey,
}

/// The mathematical values of a list of addresses.
pub open spec fn view_pubkeys(ks: Seq<Pubkey>) -> Seq<Seq<u8>> {
    ks.map_values(|k: Pubkey| k@)
}

/// Mathematical value of the engine configuration.
#[verifier::ext_equal]
pub ghost struct EngineConfigView {
    pub token_program_ids: Seq<Seq<u8>>,
    pub seed_authority: Seq<u8>,
}

impl View for EngineConfig {
    type V = EngineConfigView;

    open spec fn view(&self) -> EngineConfigView {
        EngineConfigView {
            token_program_ids: view_pubkeys(self.token_program_ids@),
            seed_authority: self.seed_authority@,
        }
    }
}

} // verus!
