//! Asset transfers between accounts, balances, DEXes and subaccounts.
use crate::address::Address;
use crate::decimal::Decimal;
use crate::market::{AssetTarget, SignerArgs, SpotToken};
use vstd::prelude::*;
use vstd::std_specs::convert::{FromSpec, FromSpecImpl};

pub mod laws;
pub mod run;

verus! {

/// The arguments of a transfer as they were given: `None` for an option left out.
pub struct SendArgs {
    pub signer: SignerArgs,
    /// Token to send (symbol or index)
    pub token: String,
    /// Amount to send
    pub amount: Decimal,
    /// Destination address
    pub destination: Option<Address>,
    /// Source location
    pub from: Option<AssetTarget>,
    /// Destination location
    pub to: Option<AssetTarget>,
    /// Source subaccount name
    pub from_subaccount: Option<String>,
    /// Multi-sig wallet to send on behalf of
    pub multi_sig_addr: Option<Address>,
    /// Sign and submit with local signers only
    pub local: bool,
}

/// Why arguments are refused.
#[derive(Clone, Copy, Debug, PartialEq, Eq, Structural)]
pub enum ArgsError {
    /// `local` was given without a multi-sig wallet.
    LocalWithoutMultiSig,
}

/// Send assets between accounts or DEXes.
#[derive(Debug, PartialEq, Eq)]
pub struct SendCmd {
    pub signer: SignerArgs,
    /// Token to send (symbol or index, e.g., "USDC", "USDT0", "HYPE", or 0)
    pub token: String,
    /// Amount to send
    pub amount: Decimal,
    /// Destination address (defaults to self for internal transfers)
    pub destination: Option<Address>,
    /// Source location
    pub from: AssetTarget,
    /// Destination location
    pub to: AssetTarget,
    /// Source subaccount name (if sending from a subaccount)
    pub from_subaccount: Option<String>,
    /// Send on behalf of this multi-sig wallet
    pub multi_sig_addr: Option<Address>,
    /// Sign and submit using only local signers, without starting P2P gossip
    pub local: bool,
}

/// The token of a transfer.
#[derive(Debug, PartialEq, Eq)]
pub struct SendToken(pub SpotToken);

/// A transfer, ready to be signed.
#[derive(Debug, PartialEq, Eq)]
pub struct SendAsset {
    pub destination: Address,
    pub source_dex: AssetTarget,
    pub destination_dex: AssetTarget,
    pub token: SendToken,
    pub amount: Decimal,
    /// Name of the source subaccount, empty for the account itself
    pub from_sub_account: String,
    pub nonce: u64,
}

/// The older spelling of a multi-sig transfer, where `to` names the recipient and the
/// locations are `source` and `dest`.
#[derive(Debug, PartialEq, Eq)]
pub struct MultiSigSendAsset {
    pub signer: SignerArgs,
    pub multi_sig_addr: Address,
    pub to: Address,
    pub token: String,
    pub amount: Decimal,
    pub source: AssetTarget,
    pub dest: AssetTarget,
    pub local: bool,
}

impl SendCmd {
    /// The amount is a decimal number.
    pub open spec fn wf(self) -> bool {
        self.amount.wf()
    }

    /// The command that `args` spell: both locations default to the perpetuals
    /// balance, and `local` needs a multi-sig wallet.
    pub open spec fn of_args(args: SendArgs) -> Result<SendCmd, ArgsError> {
        if args.local && args.multi_sig_addr is None {
            Err(ArgsError::LocalWithoutMultiSig)
        } else {
            Ok(
                SendCmd {
                    signer: args.signer,
                    token: args.token,
                    amount: args.amount,
                    destination: args.destination,
                    from: (match args.from {
                        Some(target) => target,
                        None => AssetTarget::Perp,
                    }),
                    to: (match args.to {
                        Some(target) => target,
                        None => AssetTarget::Perp,
                    }),
                    from_subaccount: args.from_subaccount,
                    multi_sig_addr: args.multi_sig_addr,
                    local: args.local,
                },
            )
        }
    }

    /// Fills in the defaults of `args` and refuses the combinations that make no sense.
    pub fn from_args(args: SendArgs) -> (r: Result<SendCmd, ArgsError>)
        ensures
            r == SendCmd::of_args(args),
            r is Err <==> args.local && args.multi_sig_addr is None,
    {
        if args.local && args.multi_sig_addr.is_none() {
            return Err(ArgsError::LocalWithoutMultiSig);
        }
        Ok(
            SendCmd {
                signer: args.signer,
                token: args.token,
                amount: args.amount,
                destination: args.destination,
                from: match args.from {
                    Some(target) => target,
                    None => AssetTarget::Perp,
                },
                to: match args.to {
                    Some(target) => target,
                    None => AssetTarget::Perp,
                },
                from_subaccount: args.from_subaccount,
                multi_sig_addr: args.multi_sig_addr,
                local: args.local,
            },
        )
    }

    /// The command that the older spelling of a multi-sig transfer stands for.
    pub open spec fn of_multi_sig(asset: MultiSigSendAsset) -> SendCmd {
        SendCmd {
            signer: asset.signer,
            token: asset.token,
            amount: asset.amount,
            destination: Some(asset.to),
            from: asset.source,
            to: asset.dest,
            from_subaccount: None,
            multi_sig_addr: Some(asset.multi_sig_addr),
            local: asset.local,
        }
    }

    /// The recipient of a transfer that `account` pays for.
    pub open spec fn recipient(self, account: Address) -> Address {
        match self.destination {
            Some(destination) => destination,
            None => account,
        }
    }

    /// `transfer` is what this command sends from `account`.
    pub open spec fn is_transfer(
        self,
        account: Address,
        token: SpotToken,
        nonce: u64,
        transfer: SendAsset,
    ) -> bool {
        &&& transfer.destination == self.recipient(account)
        &&& transfer.source_dex == self.from
        &&& transfer.destination_dex == self.to
        &&& transfer.token == SendToken(token)
        &&& transfer.amount == self.amount
        &&& transfer.from_sub_account@ == (match self.from_subaccount {
            Some(name) => name@,
            None => Seq::empty(),
        })
        &&& transfer.nonce == nonce
    }

    /// The transfer of `token` that `account` pays for, under `nonce`.
    pub fn build_transfer(&self, account: Address, token: SpotToken, nonce: u64) -> (r: SendAsset)
        ensures
            self.is_transfer(account, token, nonce, r),
            r.amount == self.amount,
            r.amount@ == self.amount@,
            r.source_dex == self.from,
            r.destination_dex == self.to,
            self.destination matches Some(destination) ==> r.destination == destination,
            self.destination is None ==> r.destination == account,
            self.from_subaccount matches Some(name) ==> r.from_sub_account@ == name@,
            self.from_subaccount is None ==> r.from_sub_account@.len() == 0,
            r.token.0 == token,
            r.nonce == nonce,
    {
        SendAsset {
            destination: match self.destination {
                Some(destination) => destination,
                None => account,
            },
            source_dex: self.from.clone(),
            destination_dex: self.to.clone(),
            token: SendToken(token),
            amount: self.amount,
            from_sub_account: match &self.from_subaccount {
                Some(name) => name.clone(),
                None => String::new(),
            },
            nonce,
        }
    }
}

impl std::ops::Deref for SendCmd {
    type Target = SignerArgs;

    fn deref(&self) -> (r: &SignerArgs)
        ensures
            *r == self.signer,
    {
        &self.signer
    }
}

impl From<MultiSigSendAsset> for SendCmd {
    fn from(asset: MultiSigSendAsset) -> (r: SendCmd) {
        SendCmd {
            signer: asset.signer,
            token: asset.token,
            amount: asset.amount,
            destination: Some(asset.to),
            from: asset.source,
            to: asset.dest,
            from_subaccount: None,
            multi_sig_addr: Some(asset.multi_sig_addr),
            local: asset.local,
        }
    }
}

impl FromSpecImpl<MultiSigSendAsset> for SendCmd {
    open spec fn obeys_from_spec() -> bool {
        true
    }

    open spec fn from_spec(asset: MultiSigSendAsset) -> SendCmd {
        SendCmd::of_multi_sig(asset)
    }
}

/// A transfer sends what the command asks for, of the token and under the nonce that it
/// was built with.
pub proof fn law_transfer_sends_what_was_asked(
    cmd: SendCmd,
    account: Address,
    token: SpotToken,
    nonce: u64,
    transfer: SendAsset,
)
    requires
        cmd.is_transfer(account, token, nonce, transfer),
    ensures
        transfer.amount == cmd.amount,
        transfer.amount@ == cmd.amount@,
        transfer.amount@.signed() == cmd.amount@.signed(),
        transfer.amount@.scale == cmd.amount@.scale,
        transfer.source_dex == cmd.from,
        transfer.destination_dex == cmd.to,
        cmd.destination matches Some(destination) ==> transfer.destination == destination,
        cmd.destination is None ==> transfer.destination == account,
        cmd.from_subaccount matches Some(name) ==> transfer.from_sub_account@ == name@,
        cmd.from_subaccount is None ==> transfer.from_sub_account@.len() == 0,
        transfer.token.0 == token,
        transfer.nonce == nonce,
{
}

/// Arguments are refused exactly where they ask for local signing without a multi-sig
/// wallet. All others keep their meaning, and any decimal amount will do.
pub proof fn law_send_args_keep_their_meaning(args: SendArgs)
    ensures
        SendCmd::of_args(args) is Err <==> args.local && args.multi_sig_addr is None,
        SendCmd::of_args(args) matches Ok(cmd) ==> {
            &&& cmd.signer == args.signer
            &&& cmd.token@ == args.token@
            &&& cmd.amount == args.amount
            &&& cmd.amount@ == args.amount@
            &&& cmd.destination == args.destination
            &&& args.from matches Some(from) ==> cmd.from == from
            &&& args.from is None ==> cmd.from is Perp
            &&& args.to matches Some(to) ==> cmd.to == to
            &&& args.to is None ==> cmd.to is Perp
            &&& cmd.from_subaccount == args.from_subaccount
            &&& cmd.multi_sig_addr == args.multi_sig_addr
            &&& cmd.local == args.local
            &&& args.amount.scale <= 28 ==> cmd.wf()
        },
{
}

/// The older spelling keeps its meaning: `to` is paid, from `source` to `dest`, on behalf
/// of the wallet and from no subaccount.
pub proof fn law_older_spelling_keeps_its_meaning(asset: MultiSigSendAsset)
    ensures
        ({
            let cmd = <SendCmd as FromSpec<MultiSigSendAsset>>::from_spec(asset);
            &&& <SendCmd as FromSpec<MultiSigSendAsset>>::obeys_from_spec()
            &&& cmd.signer == asset.signer
            &&& cmd.token@ == asset.token@
            &&& cmd.amount == asset.amount
            &&& cmd.amount@ == asset.amount@
            &&& cmd.destination == Some(asset.to)
            &&& cmd.from == asset.source
            &&& cmd.to == asset.dest
            &&& cmd.from_subaccount is None
            &&& cmd.multi_sig_addr == Some(asset.multi_sig_addr)
            &&& cmd.local == asset.local
            &&& asset.amount.scale <= 28 ==> cmd.wf()
        }),
{
}

/// A command made from arguments asks for local signing only on behalf of a multi-sig
/// wallet.
pub proof fn law_local_needs_multi_sig(args: SendArgs)
    ensures
        SendCmd::of_args(args) matches Ok(cmd) ==> (cmd.local ==> cmd.multi_sig_addr is Some),
{
}

/// The older spelling of a multi-sig transfer is the same command as the newer one, so
/// both send the same transfers.
pub proof fn law_spellings_agree(asset: MultiSigSendAsset, args: SendArgs)
    requires
        args.signer == asset.signer,
        args.token == asset.token,
        args.amount == asset.amount,
        args.destination == Some(asset.to),
        args.from == Some(asset.source),
        args.to == Some(asset.dest),
        args.from_subaccount is None,
        args.multi_sig_addr == Some(asset.multi_sig_addr),
        args.local == asset.local,
    ensures
        SendCmd::of_args(args) == Ok::<SendCmd, ArgsError>(SendCmd::of_multi_sig(asset)),
{
}

} // verus!
