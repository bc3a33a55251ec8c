//! The entry dispatcher's export table: every external operation name
//! mapped to its handler as an explicit command enum, decoupled from how
//! the host happens to invoke it.  An unknown name maps to nothing.

use vstd::prelude::*;
use vstd::string::StringSliceAdditionalSpecFns;
use vstd::utf8::encode_utf8;

verus! {

/// One external operation of the engine's export table.
#[derive(Debug, PartialEq, Eq, Structural, Copy, Clone)]
pub enum EngineMethod {
    New,
    GetVersion,
    GetOwner,
    GetBridgeProvider,
    GetChainId,
    GetUpgradeIndex,
    StageUpgrade,
    DeployUpgrade,
    DeployCode,
    Call,
    RawCall,
    MetaCall,
    View,
    GetCode,
    GetBalance,
    GetNonce,
    GetStorageAt,
    NewEthConnector,
    Withdraw,
    Deposit,
    FinishDepositNear,
    FinishDepositEth,
    FtTotalSupply,
    FtTotalSupplyNear,
    FtTotalSupplyEth,
    FtBalanceOf,
    FtBalanceOfEth,
    FtTransfer,
    FtResolveTransfer,
    FtTransferCall,
    StorageDeposit,
    StorageWithdraw,
    StorageBalanceOf,
    RegisterRelayer,
    DeployEvmToken,
    FtOnTransfer,
}

/// The wire name of each operation.
pub open spec fn method_name(m: EngineMethod) -> Seq<char> {
    match m {

        EngineMethod::New => "new"@,
        EngineMethod::GetVersion => "get_version"@,
        EngineMethod::GetOwner => "get_owner"@,
        EngineMethod::GetBridgeProvider => "get_bridge_provider"@,
        EngineMethod::GetChainId => "get_chain_id"@,
        EngineMethod::GetUpgradeIndex => "get_upgrade_index"@,
        EngineMethod::StageUpgrade => "stage_upgrade"@,
        EngineMethod::DeployUpgrade => "deploy_upgrade"@,
        EngineMethod::DeployCode => "deploy_code"@,
        EngineMethod::Call => "call"@,
        EngineMethod::RawCall => "raw_call"@,
        EngineMethod::MetaCall => "meta_call"@,
        EngineMethod::View => "view"@,
        EngineMethod::GetCode => "get_code"@,
        EngineMethod::GetBalance => "get_balance"@,
        EngineMethod::GetNonce => "get_nonce"@,
        EngineMethod::GetStorageAt => "get_storage_at"@,
        EngineMethod::NewEthConnector => "new_eth_connector"@,
        EngineMethod::Withdraw => "withdraw"@,
        EngineMethod::Deposit => "deposit"@,
        EngineMethod::FinishDepositNear => "finish_deposit_near"@,
        EngineMethod::FinishDepositEth => "finish_deposit_eth"@,
        EngineMethod::FtTotalSupply => "ft_total_supply"@,
        EngineMethod::FtTotalSupplyNear => "ft_total_supply_near"@,
        EngineMethod::FtTotalSupplyEth => "ft_total_supply_eth"@,
        EngineMethod::FtBalanceOf => "ft_balance_of"@,
        EngineMethod::FtBalanceOfEth => "ft_balance_of_eth"@,
        EngineMethod::FtTransfer => "ft_transfer"@,
        EngineMethod::FtResolveTransfer => "ft_resolve_transfer"@,
        EngineMethod::FtTransferCall => "ft_transfer_call"@,
        EngineMethod::StorageDeposit => "storage_deposit"@,
        EngineMethod::StorageWithdraw => "storage_withdraw"@,
        EngineMethod::StorageBalanceOf => "storage_balance_of"@,
        EngineMethod::RegisterRelayer => "register_relayer"@,
        EngineMethod::DeployEvmToken => "deploy_evm_token"@,
        EngineMethod::FtOnTransfer => "ft_on_transfer"@,
    }
}

impl EngineMethod {
    /// The wire name, exactly as dispatched on.
    pub fn name(&self) -> (r: &'static str)
        ensures
            r@ == method_name(*self),
    {
        match self {
            EngineMethod::New => "new",
            EngineMethod::GetVersion => "get_version",
            EngineMethod::GetOwner => "get_owner",
            EngineMethod::GetBridgeProvider => "get_bridge_provider",
            EngineMethod::GetChainId => "get_chain_id",
            EngineMethod::GetUpgradeIndex => "get_upgrade_index",
            EngineMethod::StageUpgrade => "stage_upgrade",
            EngineMethod::DeployUpgrade => "deploy_upgrade",
            EngineMethod::DeployCode => "deploy_code",
            EngineMethod::Call => "call",
            EngineMethod::RawCall => "raw_call",
            EngineMethod::MetaCall => "meta_call",
            EngineMethod::View => "view",
            EngineMethod::GetCode => "get_code",
            EngineMethod::GetBalance => "get_balance",
            EngineMethod::GetNonce => "get_nonce",
            EngineMethod::GetStorageAt => "get_storage_at",
            EngineMethod::NewEthConnector => "new_eth_connector",
            EngineMethod::Withdraw => "withdraw",
            EngineMethod::Deposit => "deposit",
            EngineMethod::FinishDepositNear => "finish_deposit_near",
            EngineMethod::FinishDepositEth => "finish_deposit_eth",
            EngineMethod::FtTotalSupply => "ft_total_supply",
            EngineMethod::FtTotalSupplyNear => "ft_total_supply_near",
            EngineMethod::FtTotalSupplyEth => "ft_total_supply_eth",
            EngineMethod::FtBalanceOf => "ft_balance_of",
            EngineMethod::FtBalanceOfEth => "ft_balance_of_eth",
            EngineMethod::FtTransfer => "ft_transfer",
            EngineMethod::FtResolveTransfer => "ft_resolve_transfer",
            EngineMethod::FtTransferCall => "ft_transfer_call",
            EngineMethod::StorageDeposit => "storage_deposit",
            EngineMethod::StorageWithdraw => "storage_withdraw",
            EngineMethod::StorageBalanceOf => "storage_balance_of",
            EngineMethod::RegisterRelayer => "register_relayer",
            EngineMethod::DeployEvmToken => "deploy_evm_token",
            EngineMethod::FtOnTransfer => "ft_on_transfer",
        }
    }
}

/// String equality, decided on the underlying bytes.
fn str_eq(a: &str, b: &str) -> (r: bool)
    ensures
        r <==> a@ == b@,
{
    let r = crate::engine::bytes_eq(a.as_bytes(), b.as_bytes());
    proof {
        if r {
            vstd::utf8::encode_utf8_decode_utf8(a@);
            vstd::utf8::encode_utf8_decode_utf8(b@);
        } else {
            if a@ == b@ {
                assert(encode_utf8(a@) == encode_utf8(b@));
            }
        }
    }
    r
}

/// Looks an operation name up in the export table: exactly the listed
/// names resolve, everything else is unknown.
#[verifier::rlimit(60)]
pub fn parse_method(name: &str) -> (r: Option<EngineMethod>)
    ensures
        r matches Some(m) ==> name@ == method_name(m),
        r is None ==> forall|m: EngineMethod| name@ != method_name(m),
{
    if str_eq(name, "new") {
        return Some(EngineMethod::New);
    }
    if str_eq(name, "get_version") {
        return Some(EngineMethod::GetVersion);
    }
    if str_eq(name, "get_owner") {
        return Some(EngineMethod::GetOwner);
    }
    if str_eq(name, "get_bridge_provider") {
        return Some(EngineMethod::GetBridgeProvider);
    }
    if str_eq(name, "get_chain_id") {
        return Some(EngineMethod::GetChainId);
    }
    if str_eq(name, "get_upgrade_index") {
        return Some(EngineMethod::GetUpgradeIndex);
    }
    if str_eq(name, "stage_upgrade") {
        return Some(EngineMethod::StageUpgrade);
    }
    if str_eq(name, "deploy_upgrade") {
        return Some(EngineMethod::DeployUpgrade);
    }
    if str_eq(name, "deploy_code") {
        return Some(EngineMethod::DeployCode);
    }
    if str_eq(name, "call") {
        return Some(EngineMethod::Call);
    }
    if str_eq(name, "raw_call") {
        return Some(EngineMethod::RawCall);
    }
    if str_eq(name, "meta_call") {
        return Some(EngineMethod::MetaCall);
    }
    if str_eq(name, "view") {
        return Some(EngineMethod::View);
    }
    if str_eq(name, "get_code") {
        return Some(EngineMethod::GetCode);
    }
    if str_eq(name, "get_balance") {
        return Some(EngineMethod::GetBalance);
    }
    if str_eq(name, "get_nonce") {
        return Some(EngineMethod::GetNonce);
    }
    if str_eq(name, "get_storage_at") {
        return Some(EngineMethod::GetStorageAt);
    }
    if str_eq(name, "new_eth_connector") {
        return Some(EngineMethod::NewEthConnector);
    }
    if str_eq(name, "withdraw") {
        return Some(EngineMethod::Withdraw);
    }
    if str_eq(name, "deposit") {
        return Some(EngineMethod::Deposit);
    }
    if str_eq(name, "finish_deposit_near") {
        return Some(EngineMethod::FinishDepositNear);
    }
    if str_eq(name, "finish_deposit_eth") {
        return Some(EngineMethod::FinishDepositEth);
    }
    if str_eq(name, "ft_total_supply") {
        return Some(EngineMethod::FtTotalSupply);
    }
    if str_eq(name, "ft_total_supply_near") {
        return Some(EngineMethod::FtTotalSupplyNear);
    }
    if str_eq(name, "ft_total_supply_eth") {
        return Some(EngineMethod::FtTotalSupplyEth);
    }
    if str_eq(name, "ft_balance_of") {
        return Some(EngineMethod::FtBalanceOf);
    }
    if str_eq(name, "ft_balance_of_eth") {
        return Some(EngineMethod::FtBalanceOfEth);
    }
    if str_eq(name, "ft_transfer") {
        return Some(EngineMethod::FtTransfer);
    }
    if str_eq(name, "ft_resolve_transfer") {
        return Some(EngineMethod::FtResolveTransfer);
    }
    if str_eq(name, "ft_transfer_call") {
        return Some(EngineMethod::FtTransferCall);
    }
    if str_eq(name, "storage_deposit") {
        return Some(EngineMethod::StorageDeposit);
    }
    if str_eq(name, "storage_withdraw") {
        return Some(EngineMethod::StorageWithdraw);
    }
    if str_eq(name, "storage_balance_of") {
        return Some(EngineMethod::StorageBalanceOf);
    }
    if str_eq(name, "register_relayer") {
        return Some(EngineMethod::RegisterRelayer);
    }
    if str_eq(name, "deploy_evm_token") {
        return Some(EngineMethod::DeployEvmToken);
    }
    if str_eq(name, "ft_on_transfer") {
        return Some(EngineMethod::FtOnTransfer);
    }
    proof {
        assert forall|m: EngineMethod| name@ != method_name(m) by {}
    }
    None
}

} // verus!
