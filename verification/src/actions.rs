//! The account operations that an instruction asks for, and what they move.

use vstd::prelude::*;

use crate::pubkey::Pubkey;

verus! {

/// Whose signature an operation carries.
#[derive(Clone, Copy, Debug, PartialEq, Eq)]
pub enum Signing {
    /// The wallets that signed the transaction.
    Wallets,
    /// In addition, the curve account of a mint.
    Curve { mint: Pubkey, bump: u8 },
    /// In addition, the SOL vault of a mint.
    Vault { mint: Pubkey, bump: u8 },
}

/// The seed `curve`, from which the address of a curve account is derived.
pub open spec fn curve_tag() -> Seq<u8> {
    vstd::utf8::encode_utf8("curve"@)
}

/// The seed `sol_vault`, from which the address of a SOL vault is derived.
pub open spec fn vault_tag() -> Seq<u8> {
    vstd::utf8::encode_utf8("sol_vault"@)
}

impl Signing {
    /// The seeds with which the program signs: a tag, the mint and the bump.
    pub open spec fn seed_bytes(self) -> Seq<Seq<u8>> {
        match self {
            Signing::Wallets => seq![],
            Signing::Curve { mint, bump } => seq![curve_tag(), mint@, seq![bump]],
            Signing::Vault { mint, bump } => seq![vault_tag(), mint@, seq![bump]],
        }
    }

    /// Returns the seeds with which the program signs; none for wallets.
    pub fn seeds(&self) -> (r: Vec<Vec<u8>>)
        ensures
            r.deep_view() == self.seed_bytes(),
    {
        let mut r: Vec<Vec<u8>> = Vec::new();
        match self {
            Signing::Wallets => {},
            Signing::Curve { mint, bump } => {
                r.push("curve".as_bytes_vec());
                r.push(mint.to_vec());
                r.push(vec![*bump]);
            },
            Signing::Vault { mint, bump } => {
                r.push("sol_vault".as_bytes_vec());
                r.push(mint.to_vec());
                r.push(vec![*bump]);
            },
        }
        proof {
            assert forall|i: int| 0 <= i < r@.len() implies r@[i].deep_view()
                == self.seed_bytes()[i] by {
                assert(r@[i].deep_view() =~= r@[i]@);
                assert(r@[i]@ =~= self.seed_bytes()[i]);
            }
            assert(r.deep_view() =~= self.seed_bytes());
        }
        r
    }
}

/// One operation on accounts that the program itself does not own.
#[derive(Clone, Copy, Debug, PartialEq, Eq)]
pub enum Action {
    /// Creates the account `to`, paid by `from`.
    CreateAccount {
        from: Pubkey,
        to: Pubkey,
        lamports: u64,
        space: u64,
        owner: Pubkey,
        signing: Signing,
    },
    /// Moves lamports between system accounts.
    TransferSol { from: Pubkey, to: Pubkey, lamports: u64, signing: Signing },
    /// Moves tokens between token accounts.
    TransferTokens {
        from: Pubkey,
        to: Pubkey,
        authority: Pubkey,
        amount: u64,
        signing: Signing,
    },
    /// Mints new tokens into a token account.
    MintTokens { mint: Pubkey, to: Pubkey, authority: Pubkey, amount: u64, signing: Signing },
    /// Gives up the right to mint for good.
    RevokeMintAuthority { mint: Pubkey, authority: Pubkey, signing: Signing },
}

/// What a move of `amount` from one account to another adds to `account`.
pub open spec fn moved(from: Seq<u8>, to: Seq<u8>, amount: int, account: Seq<u8>) -> int {
    (if to == account {
        amount
    } else {
        0
    }) - (if from == account {
        amount
    } else {
        0
    })
}

impl Action {
    /// The lamports that this operation adds to `account` (negative: takes from it).
    pub open spec fn lamports_into(self, account: Seq<u8>) -> int {
        match self {
            Action::CreateAccount { from, to, lamports, .. } => moved(
                from@,
                to@,
                lamports as int,
                account,
            ),
            Action::TransferSol { from, to, lamports, .. } => moved(
                from@,
                to@,
                lamports as int,
                account,
            ),
            _ => 0,
        }
    }

    /// The tokens that this operation adds to the token account `account`
    /// (negative: takes from it).
    pub open spec fn tokens_into(self, account: Seq<u8>) -> int {
        match self {
            Action::TransferTokens { from, to, amount, .. } => moved(
                from@,
                to@,
                amount as int,
                account,
            ),
            Action::MintTokens { to, amount, .. } => if to@ == account {
                amount as int
            } else {
                0
            },
            _ => 0,
        }
    }
}

/// The lamports that a list of operations adds to `account`.
pub open spec fn lamports_into(actions: Seq<Action>, account: Seq<u8>) -> int
    decreases actions.len(),
{
    if actions.len() == 0 {
        0
    } else {
        lamports_into(actions.drop_last(), account) + actions.last().lamports_into(account)
    }
}

/// The tokens that a list of operations adds to the token account `account`.
pub open spec fn tokens_into(actions: Seq<Action>, account: Seq<u8>) -> int
    decreases actions.len(),
{
    if actions.len() == 0 {
        0
    } else {
        tokens_into(actions.drop_last(), account) + actions.last().tokens_into(account)
    }
}

/// One more operation at the end adds what it moves itself.
pub(crate) proof fn lemma_push_action(actions: Seq<Action>, action: Action, account: Seq<u8>)
    ensures
        lamports_into(actions.push(action), account) == lamports_into(actions, account)
            + action.lamports_into(account),
        tokens_into(actions.push(action), account) == tokens_into(actions, account)
            + action.tokens_into(account),
{
    assert(actions.push(action).drop_last() =~= actions);
}

} // verus!
