//! Earn, the borrow/lend market: suppliers lend a quote asset to borrowers and earn
//! the borrow interest.
//!
//! Token index `0` is USDC.
use crate::address::Address;
use crate::decimal::Decimal;
use crate::market::{Chain, SignerArgs, SpotToken};
use crate::text::{law_nat_text_writes_the_number, nat_text, u32_text, writes};
use vstd::prelude::*;

pub mod laws;
pub mod pct;
pub mod report;
pub mod run;

pub use pct::{format_pct, render_pct, try_format_pct};

verus! {

/// USDC, the main Earn reserve.
pub const USDC_TOKEN: u32 = 0;

/// Earn supply and withdrawal commands.
#[derive(Clone, Copy, Debug, PartialEq, Eq)]
pub enum EarnCmd {
    /// Supply tokens into the Earn reserve to earn interest
    Supply(EarnTransferCmd),
    /// Withdraw supplied tokens from the Earn reserve
    Withdraw(EarnTransferCmd),
    /// Query reserve rates and a user's position
    Status(EarnStatusCmd),
}

/// Arguments for an Earn supply or withdrawal.
#[derive(Clone, Copy, Debug, PartialEq, Eq)]
pub struct EarnTransferCmd {
    pub signer: SignerArgs,
    /// Amount to supply or withdraw. Omit for the maximum available.
    pub amount: Option<Decimal>,
    /// Token index of the reserve (0 is USDC)
    pub token: u32,
}

/// Arguments for the Earn status query.
#[derive(Clone, Copy, Debug, PartialEq, Eq)]
pub struct EarnStatusCmd {
    /// User address to query the position for
    pub user: Address,
    /// Token index of the reserve (0 is USDC)
    pub token: u32,
    /// Target chain for the query
    pub chain: Chain,
}

/// What a transfer does with the reserve.
#[derive(Clone, Copy, Debug, PartialEq, Eq, Structural)]
pub enum BorrowLendOperation {
    Supply,
    Withdraw,
}

/// A transfer, ready to be signed.
#[derive(Clone, Copy, Debug, PartialEq, Eq)]
pub struct BorrowLendAction {
    pub operation: BorrowLendOperation,
    pub token: u32,
    /// `None` for the maximum available
    pub amount: Option<Decimal>,
}

impl EarnTransferCmd {
    /// The amount, if there is one, is a decimal number.
    pub open spec fn wf(self) -> bool {
        self.amount matches Some(amount) ==> amount.wf()
    }

    /// The transfer that the arguments spell.
    pub open spec fn of_args(
        signer: SignerArgs,
        amount: Option<Decimal>,
        token: Option<u32>,
    ) -> Self {
        EarnTransferCmd {
            signer,
            amount,
            token: (match token {
                Some(token) => token,
                None => USDC_TOKEN,
            }),
        }
    }

    /// A transfer from its arguments: the token defaults to USDC.
    pub fn from_args(signer: SignerArgs, amount: Option<Decimal>, token: Option<u32>) -> (r: Self)
        ensures
            r == EarnTransferCmd::of_args(signer, amount, token),
            r.signer == signer,
            r.amount == amount,
            r.token == (match token {
                Some(token) => token,
                None => USDC_TOKEN,
            }),
    {
        EarnTransferCmd {
            signer,
            amount,
            token: match token {
                Some(token) => token,
                None => USDC_TOKEN,
            },
        }
    }
}

impl std::ops::Deref for EarnTransferCmd {
    type Target = SignerArgs;

    fn deref(&self) -> (r: &SignerArgs)
        ensures
            *r == self.signer,
    {
        &self.signer
    }
}

impl EarnStatusCmd {
    /// The query that the arguments spell.
    pub open spec fn of_args(user: Address, token: Option<u32>, chain: Option<Chain>) -> Self {
        EarnStatusCmd {
            user,
            token: (match token {
                Some(token) => token,
                None => USDC_TOKEN,
            }),
            chain: (match chain {
                Some(chain) => chain,
                None => Chain::Mainnet,
            }),
        }
    }

    /// A query from its arguments: the token defaults to USDC, the chain to mainnet.
    pub fn from_args(user: Address, token: Option<u32>, chain: Option<Chain>) -> (r: Self)
        ensures
            r == EarnStatusCmd::of_args(user, token, chain),
            r.user == user,
            r.token == (match token {
                Some(token) => token,
                None => USDC_TOKEN,
            }),
            r.chain == (match chain {
                Some(chain) => chain,
                None => Chain::Mainnet,
            }),
    {
        EarnStatusCmd {
            user,
            token: match token {
                Some(token) => token,
                None => USDC_TOKEN,
            },
            chain: match chain {
                Some(chain) => chain,
                None => Chain::Mainnet,
            },
        }
    }
}

impl EarnCmd {
    /// The amount, if there is one, is a decimal number.
    pub open spec fn wf(self) -> bool {
        match self {
            EarnCmd::Supply(cmd) => cmd.wf(),
            EarnCmd::Withdraw(cmd) => cmd.wf(),
            EarnCmd::Status(_) => true,
        }
    }
}

/// The first token of `tokens` with the index `token`.
pub open spec fn first_token(tokens: Seq<SpotToken>, token: u32) -> Option<SpotToken>
    decreases tokens.len(),
{
    if tokens.len() == 0 {
        None
    } else if tokens[0].index == token {
        Some(tokens[0])
    } else {
        first_token(tokens.drop_first(), token)
    }
}

/// How a reserve token is called: the symbol of the first spot token with that index,
/// or the index itself where there is none or the spot tokens are not known.
pub open spec fn name_of(tokens: Option<Seq<SpotToken>>, token: u32) -> Seq<char> {
    match tokens {
        Some(tokens) => match first_token(tokens, token) {
            Some(found) => found.name@,
            None => nat_text(token as nat),
        },
        None => nat_text(token as nat),
    }
}

/// `i` is the place of the first of `tokens` with the index `token`.
pub open spec fn first_at(tokens: Seq<SpotToken>, token: u32, i: int) -> bool {
    &&& 0 <= i < tokens.len()
    &&& tokens[i].index == token
    &&& forall|h: int| 0 <= h < i ==> (#[trigger] tokens[h]).index != token
}

/// None of `tokens` has the index `token`.
pub open spec fn lacks(tokens: Seq<SpotToken>, token: u32) -> bool {
    forall|h: int| 0 <= h < tokens.len() ==> (#[trigger] tokens[h]).index != token
}

/// `name` is what the reserve token is to be called: the symbol of the first spot token
/// with that index, the decimal digits of the index where no token has it or the spot
/// tokens are not known.
pub open spec fn is_name(name: Seq<char>, tokens: Option<Seq<SpotToken>>, token: u32) -> bool {
    match tokens {
        Some(tokens) => {
            &&& forall|i: int| #[trigger] first_at(tokens, token, i) ==> name == tokens[i].name@
            &&& lacks(tokens, token) ==> writes(name, token as int)
        },
        None => writes(name, token as int),
    }
}

/// A reserve token is called by the symbol of the first spot token with its index, and by
/// the digits of the index where no token has it or the tokens are not known.
pub proof fn law_name_is_the_first_symbol(tokens: Seq<SpotToken>, token: u32, i: int)
    ensures
        0 <= i < tokens.len() && tokens[i].index == token && (forall|h: int|
            0 <= h < i ==> (#[trigger] tokens[h]).index != token) ==> name_of(Some(tokens), token)
            == tokens[i].name@,
        (forall|h: int| 0 <= h < tokens.len() ==> (#[trigger] tokens[h]).index != token)
            ==> name_of(Some(tokens), token) == nat_text(token as nat),
        name_of(None, token) == nat_text(token as nat),
{
    lemma_first_token(tokens, token);
    if 0 <= i < tokens.len() && tokens[i].index == token && (forall|h: int|
        0 <= h < i ==> (#[trigger] tokens[h]).index != token) {
        assert(first_at(tokens, token, i));
    }
    if forall|h: int| 0 <= h < tokens.len() ==> (#[trigger] tokens[h]).index != token {
        assert(lacks(tokens, token));
    }
}

proof fn lemma_is_name(tokens: Option<Seq<SpotToken>>, token: u32)
    ensures
        is_name(name_of(tokens, token), tokens, token),
{
    law_nat_text_writes_the_number(token as nat);
    if tokens is Some {
        lemma_first_token(tokens->0, token);
    }
}

proof fn lemma_first_token(tokens: Seq<SpotToken>, token: u32)
    ensures
        match first_token(tokens, token) {
            Some(found) => {
                &&& !lacks(tokens, token)
                &&& forall|i: int| #[trigger] first_at(tokens, token, i) ==> tokens[i] == found
            },
            None => forall|i: int| !#[trigger] first_at(tokens, token, i),
        },
    decreases tokens.len(),
{
    if tokens.len() > 0 {
        let rest = tokens.drop_first();
        if tokens[0].index != token {
            lemma_first_token(rest, token);
            assert forall|i: int| #[trigger] first_at(tokens, token, i) implies first_at(
                rest,
                token,
                i - 1,
            ) && rest[i - 1] == tokens[i] by {
                assert forall|h: int| 0 <= h < i - 1 implies (#[trigger] rest[h]).index != token by {
                    assert(rest[h] == tokens[h + 1]);
                }
            }
            if first_token(tokens, token) is Some {
                let h = choose|h: int| 0 <= h < rest.len() && (#[trigger] rest[h]).index == token;
                assert(tokens[h + 1].index == token);
            }
        } else {
            assert forall|i: int| #[trigger] first_at(tokens, token, i) implies i == 0 by {
                if i > 0 {
                    assert(tokens[0].index != token);
                }
            }
        }
    }
}

/// Arguments are taken as they are given. An option left out is token 0, or mainnet.
pub proof fn law_earn_args_keep_their_meaning(
    signer: SignerArgs,
    amount: Option<Decimal>,
    token: Option<u32>,
    user: Address,
    chain: Option<Chain>,
)
    ensures
        ({
            let cmd = EarnTransferCmd::of_args(signer, amount, token);
            &&& cmd.signer == signer
            &&& cmd.amount == amount
            &&& token matches Some(index) ==> cmd.token == index
            &&& token is None ==> cmd.token == 0
            &&& (amount matches Some(a) ==> a.scale <= 28) ==> {
                &&& cmd.wf()
                &&& EarnCmd::Supply(cmd).wf()
                &&& EarnCmd::Withdraw(cmd).wf()
            }
        }),
        ({
            let query = EarnStatusCmd::of_args(user, token, chain);
            &&& query.user == user
            &&& token matches Some(index) ==> query.token == index
            &&& token is None ==> query.token == 0
            &&& chain matches Some(c) ==> query.chain == c
            &&& chain is None ==> query.chain == Chain::Mainnet
            &&& EarnCmd::Status(query).wf()
        }),
{
}

fn find_token(tokens: &Vec<SpotToken>, token: u32) -> (r: Option<&SpotToken>)
    ensures
        match r {
            Some(found) => first_token(tokens@, token) == Some(*found),
            None => first_token(tokens@, token) is None,
        },
{
    let mut i: usize = 0;
    assert(tokens@.skip(0) =~= tokens@);
    while i < tokens.len()
        invariant
            i <= tokens@.len(),
            first_token(tokens@, token) == first_token(tokens@.skip(i as int), token),
        decreases tokens@.len() - i,
    {
        assert(tokens@.skip(i as int)[0] == tokens@[i as int]);
        if tokens[i].index == token {
            return Some(&tokens[i]);
        }
        assert(tokens@.skip(i as int).drop_first() =~= tokens@.skip(i + 1));
        i = i + 1;
    }
    None
}

/// The items of an optional list.
pub open spec fn items(tokens: Option<Vec<SpotToken>>) -> Option<Seq<SpotToken>> {
    match tokens {
        Some(tokens) => Some(tokens@),
        None => None,
    }
}

/// Resolves a reserve token index to its spot token symbol, falling back to the index.
/// `tokens` is `None` where the spot tokens could not be fetched.
pub fn token_name(tokens: &Option<Vec<SpotToken>>, token: u32) -> (r: String)
    ensures
        r@ == name_of(items(*tokens), token),
        match *tokens {
            Some(tokens) => is_name(r@, Some(tokens@), token),
            None => is_name(r@, None, token),
        },
{
    proof {
        lemma_is_name(items(*tokens), token);
    }
    match tokens {
        Some(tokens) => match find_token(tokens, token) {
            Some(found) => found.name.clone(),
            None => u32_text(token),
        },
        None => u32_text(token),
    }
}

} // verus!
