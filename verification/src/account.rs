//! Addresses and the in-memory model of a ledger account.
//!
//! Every account that an operation touches is handed to the engine as a
//! plain value: its address, owner program, balance, raw data bytes and
//! whether the address signed the current call.

use vstd::prelude::*;

verus! {

/// A 32-byte ledger address.
#[derive(Clone, Copy, Debug)]
pub struct Pubkey {
    pub bytes: [u8; 32],
}

impl View for Pubkey {
    type V = Seq<u8>;

    open spec fn view(&self) -> Seq<u8> {
        self.bytes@
    }
}

impl Pubkey {
    /// The all-zero address.
    pub fn zeroed() -> (r: Pubkey)
        ensures
            r@ == Seq::<u8>::new(32, |i: int| 0u8),
    {
        let k = Pubkey { bytes: [0u8; 32] };
        proof {
            assert(k.bytes@ =~= Seq::<u8>::new(32, |i: int| 0u8));
        }
        k
    }

    /// Byte-for-byte equality of two addresses.
    pub fn equals(&self, other: &Pubkey) -> (r: bool)
        ensures
            r == (self@ == other@),
    {
        let mut i: usize = 0;
        while i < 32
            invariant
                i <= 32,
                forall|j: int| 0 <= j < i ==> self.bytes@[j] == other.bytes@[j],
            decreases 32 - i,
        {
            if self.bytes[i] != other.bytes[i] {
                return false;
            }
            i += 1;
        }
        proof {
            assert(self.bytes@ =~= other.bytes@);
        }
        true
    }
}

/// Mathematical value of one ledger account.
#[verifier::ext_equal]
pub ghost struct AccountView {
    pub key: Seq<u8>,
    pub daltons: u64,
    pub data: Seq<u8>,
    pub program_id: Seq<u8>,
    pub is_signer: bool,
}

/// The in-memory model of one ledger account, as the engine sees it:
/// every referenced account arrives as a pre-resolved value.
#[derive(Debug)]
pub struct NativeAccountData {
    /// The account's address.
    pub key: Pubkey,
    /// The account's balance.
    pub daltons: u64,
    /// The account's raw data bytes.
    pub data: Vec<u8>,
    /// The program that owns the account.
    pub program_id: Pubkey,
    /// Whether this address signed the current call.
    pub is_signer: bool,
}

impl View for NativeAccountData {
    type V = AccountView;

    open spec fn view(&self) -> AccountView {
        AccountView {
            key: self.key@,
            daltons: self.daltons,
            data: self.data@,
            program_id: self.program_id@,
            is_signer: self.is_signer,
        }
    }
}

impl NativeAccountData {
    /// A fresh, zero-keyed account of the given size.
    pub fn new(size: usize, program_id: Pubkey) -> (r: NativeAccountData)
        ensures
            r.key@ == Seq::<u8>::new(32, |i: int| 0u8),
            r.daltons == 0,
            r.data@ == Seq::<u8>::new(size as nat, |i: int| 0u8),
            r.program_id == program_id,
            !r.is_signer,
    {
        let mut data: Vec<u8> = Vec::new();
        let mut i: usize = 0;
        while i < size
            invariant
                i <= size,
                data@ == Seq::<u8>::new(i as nat, |j: int| 0u8),
            decreases size - i,
        {
            data.push(0);
            proof {
                assert(data@ =~= Seq::<u8>::new((i + 1) as nat, |j: int| 0u8));
            }
            i += 1;
        }
        NativeAccountData {
            key: Pubkey::zeroed(),
            daltons: 0,
            data,
            program_id,
            is_signer: false,
        }
    }
}

} // verus!
