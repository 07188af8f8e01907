//! The settings of the tool: which fields it needs, and their validation.

use crate::address::{spec_parse_address, Address};
use vstd::prelude::*;

verus! {

/// The fields of the settings, in the order in which they are validated.
#[derive(Clone, Copy, Debug, PartialEq, Eq, Structural)]
pub enum ConfigField {
    HttpUrl,
    WsUrl,
    PayerPath,
    AdminPath,
    WithdrawerPath,
    RaydiumProgram,
    PnlOwner,
    Withdrawer,
    AdminKey,
    AmmPool,
    AmmOpenOrders,
    AmmCoinVault,
    AmmPcVault,
    AmmTargetOrders,
    CoinMint,
    PcMint,
}

/// The two sections of the settings.
#[derive(Clone, Copy, Debug, PartialEq, Eq, Structural)]
pub enum ConfigSection {
    Global,
    Withdraw,
}

impl ConfigField {
    /// The place of the field in the order of validation.
    pub open spec fn spec_position(self) -> int {
        match self {
            ConfigField::HttpUrl => 0,
            ConfigField::WsUrl => 1,
            ConfigField::PayerPath => 2,
            ConfigField::AdminPath => 3,
            ConfigField::WithdrawerPath => 4,
            ConfigField::RaydiumProgram => 5,
            ConfigField::PnlOwner => 6,
            ConfigField::Withdrawer => 7,
            ConfigField::AdminKey => 8,
            ConfigField::AmmPool => 9,
            ConfigField::AmmOpenOrders => 10,
            ConfigField::AmmCoinVault => 11,
            ConfigField::AmmPcVault => 12,
            ConfigField::AmmTargetOrders => 13,
            ConfigField::CoinMint => 14,
            ConfigField::PcMint => 15,
        }
    }

    /// Whether the field holds an address, in base58, and not free text.
    pub open spec fn spec_is_address(self) -> bool {
        match self {
            ConfigField::HttpUrl => false,
            ConfigField::WsUrl => false,
            ConfigField::PayerPath => false,
            ConfigField::AdminPath => false,
            ConfigField::WithdrawerPath => false,
            ConfigField::RaydiumProgram => true,
            ConfigField::PnlOwner => true,
            ConfigField::Withdrawer => true,
            ConfigField::AdminKey => true,
            ConfigField::AmmPool => true,
            ConfigField::AmmOpenOrders => true,
            ConfigField::AmmCoinVault => true,
            ConfigField::AmmPcVault => true,
            ConfigField::AmmTargetOrders => true,
            ConfigField::CoinMint => true,
            ConfigField::PcMint => true,
        }
    }

    /// The section of the settings that holds the field.
    pub open spec fn spec_section(self) -> ConfigSection {
        match self {
            ConfigField::HttpUrl => ConfigSection::Global,
            ConfigField::WsUrl => ConfigSection::Global,
            ConfigField::PayerPath => ConfigSection::Global,
            ConfigField::AdminPath => ConfigSection::Global,
            ConfigField::WithdrawerPath => ConfigSection::Global,
            ConfigField::RaydiumProgram => ConfigSection::Global,
            ConfigField::PnlOwner => ConfigSection::Global,
            ConfigField::Withdrawer => ConfigSection::Global,
            ConfigField::AdminKey => ConfigSection::Global,
            ConfigField::AmmPool => ConfigSection::Withdraw,
            ConfigField::AmmOpenOrders => ConfigSection::Withdraw,
            ConfigField::AmmCoinVault => ConfigSection::Withdraw,
            ConfigField::AmmPcVault => ConfigSection::Withdraw,
            ConfigField::AmmTargetOrders => ConfigSection::Withdraw,
            ConfigField::CoinMint => ConfigSection::Withdraw,
            ConfigField::PcMint => ConfigSection::Withdraw,
        }
    }

    /// The key of the field in its section.
    pub open spec fn spec_key(self) -> Seq<char> {
        match self {
            ConfigField::HttpUrl => "http_url"@,
            ConfigField::WsUrl => "ws_url"@,
            ConfigField::PayerPath => "payer_path"@,
            ConfigField::AdminPath => "admin_path"@,
            ConfigField::WithdrawerPath => "withdrawer_path"@,
            ConfigField::RaydiumProgram => "raydium_program"@,
            ConfigField::PnlOwner => "pnl_owner"@,
            ConfigField::Withdrawer => "withdrawer"@,
            ConfigField::AdminKey => "admin_key"@,
            ConfigField::AmmPool => "amm_pool"@,
            ConfigField::AmmOpenOrders => "amm_open_orders"@,
            ConfigField::AmmCoinVault => "amm_coin_vault"@,
            ConfigField::AmmPcVault => "amm_pc_vault"@,
            ConfigField::AmmTargetOrders => "amm_target_orders"@,
            ConfigField::CoinMint => "coin_mint"@,
            ConfigField::PcMint => "pc_mint"@,
        }
    }

    pub fn position(self) -> (p: usize)
        ensures
            p == self.spec_position(),
    {
        match self {
            ConfigField::HttpUrl => 0,
            ConfigField::WsUrl => 1,
            ConfigField::PayerPath => 2,
            ConfigField::AdminPath => 3,
            ConfigField::WithdrawerPath => 4,
            ConfigField::RaydiumProgram => 5,
            ConfigField::PnlOwner => 6,
            ConfigField::Withdrawer => 7,
            ConfigField::AdminKey => 8,
            ConfigField::AmmPool => 9,
            ConfigField::AmmOpenOrders => 10,
            ConfigField::AmmCoinVault => 11,
            ConfigField::AmmPcVault => 12,
            ConfigField::AmmTargetOrders => 13,
            ConfigField::CoinMint => 14,
            ConfigField::PcMint => 15,
        }
    }

    #[verifier::when_used_as_spec(spec_is_address)]
    pub fn is_address(self) -> (b: bool)
        ensures
            b == self.spec_is_address(),
    {
        self.position() >= 5
    }

    #[verifier::when_used_as_spec(spec_section)]
    pub fn section(self) -> (s: ConfigSection)
        ensures
            s == self.spec_section(),
    {
        if self.position() >= 9 {
            ConfigSection::Withdraw
        } else {
            ConfigSection::Global
        }
    }

    pub fn key(self) -> (k: &'static str)
        ensures
            k@ == self.spec_key(),
    {
        match self {
            ConfigField::HttpUrl => "http_url",
            ConfigField::WsUrl => "ws_url",
            ConfigField::PayerPath => "payer_path",
            ConfigField::AdminPath => "admin_path",
            ConfigField::WithdrawerPath => "withdrawer_path",
            ConfigField::RaydiumProgram => "raydium_program",
            ConfigField::PnlOwner => "pnl_owner",
            ConfigField::Withdrawer => "withdrawer",
            ConfigField::AdminKey => "admin_key",
            ConfigField::AmmPool => "amm_pool",
            ConfigField::AmmOpenOrders => "amm_open_orders",
            ConfigField::AmmCoinVault => "amm_coin_vault",
            ConfigField::AmmPcVault => "amm_pc_vault",
            ConfigField::AmmTargetOrders => "amm_target_orders",
            ConfigField::CoinMint => "coin_mint",
            ConfigField::PcMint => "pc_mint",
        }
    }
}

impl ConfigSection {
    /// The name of the section.
    pub open spec fn spec_name(self) -> Seq<char> {
        match self {
            ConfigSection::Global => "Global"@,
            ConfigSection::Withdraw => "Withdraw"@,
        }
    }

    pub fn name(self) -> (n: &'static str)
        ensures
            n@ == self.spec_name(),
    {
        match self {
            ConfigSection::Global => "Global",
            ConfigSection::Withdraw => "Withdraw",
        }
    }
}

/// Why the settings were turned down, and for which field.
#[derive(Clone, Copy, Debug, PartialEq, Eq, Structural)]
pub enum ConfigError {
    /// The settings do not hold the field.
    Missing(ConfigField),
    /// The field is empty.
    Empty(ConfigField),
    /// The field does not spell an address.
    InvalidAddress(ConfigField),
}

impl ConfigError {
    /// The field that the error is about.
    pub open spec fn spec_field(self) -> ConfigField {
        match self {
            ConfigError::Missing(f) => f,
            ConfigError::Empty(f) => f,
            ConfigError::InvalidAddress(f) => f,
        }
    }

    #[verifier::when_used_as_spec(spec_field)]
    pub fn field(self) -> (f: ConfigField)
        ensures
            f == self.spec_field(),
    {
        match self {
            ConfigError::Missing(f) => f,
            ConfigError::Empty(f) => f,
            ConfigError::InvalidAddress(f) => f,
        }
    }
}

/// The settings as they were read: each field as its text, or `None`
/// where the settings do not hold it.
#[derive(Clone, Debug, PartialEq, Eq)]
pub struct RawConfig {
    pub http_url: Option<String>,
    pub ws_url: Option<String>,
    pub payer_path: Option<String>,
    pub admin_path: Option<String>,
    pub withdrawer_path: Option<String>,
    pub raydium_program: Option<String>,
    pub pnl_owner: Option<String>,
    pub withdrawer: Option<String>,
    pub admin_key: Option<String>,
    pub amm_pool: Option<String>,
    pub amm_open_orders: Option<String>,
    pub amm_coin_vault: Option<String>,
    pub amm_pc_vault: Option<String>,
    pub amm_target_orders: Option<String>,
    pub coin_mint: Option<String>,
    pub pc_mint: Option<String>,
}

/// The validated settings: no text is empty and every address is well
/// formed.
#[derive(Clone, Debug, PartialEq)]
pub struct ClientConfig {
    pub http_url: String,
    pub ws_url: String,
    pub payer_path: String,
    pub admin_path: String,
    pub withdrawer_path: String,
    pub admin_key: Address,
    pub raydium_program: Address,
    pub pnl_owner: Address,
    pub withdrawer: Address,
    pub amm_pool: Address,
    pub amm_open_orders: Address,
    pub amm_coin_vault: Address,
    pub amm_pc_vault: Address,
    pub amm_target_orders: Address,
    pub coin_mint: Address,
    pub pc_mint: Address,
}

impl RawConfig {
    /// The text of a field as it was read.
    pub open spec fn value(self, field: ConfigField) -> Option<String> {
        match field {
            ConfigField::HttpUrl => self.http_url,
            ConfigField::WsUrl => self.ws_url,
            ConfigField::PayerPath => self.payer_path,
            ConfigField::AdminPath => self.admin_path,
            ConfigField::WithdrawerPath => self.withdrawer_path,
            ConfigField::RaydiumProgram => self.raydium_program,
            ConfigField::PnlOwner => self.pnl_owner,
            ConfigField::Withdrawer => self.withdrawer,
            ConfigField::AdminKey => self.admin_key,
            ConfigField::AmmPool => self.amm_pool,
            ConfigField::AmmOpenOrders => self.amm_open_orders,
            ConfigField::AmmCoinVault => self.amm_coin_vault,
            ConfigField::AmmPcVault => self.amm_pc_vault,
            ConfigField::AmmTargetOrders => self.amm_target_orders,
            ConfigField::CoinMint => self.coin_mint,
            ConfigField::PcMint => self.pc_mint,
        }
    }
}

/// What is wrong with a field of the settings, if anything: it is
/// missing, or empty, or it should spell an address and does not.
pub open spec fn field_error(raw: RawConfig, field: ConfigField) -> Option<ConfigError> {
    match raw.value(field) {
        None => Some(ConfigError::Missing(field)),
        Some(text) => if text@.len() == 0 {
            Some(ConfigError::Empty(field))
        } else if field.spec_is_address() && spec_parse_address(text@) is None {
            Some(ConfigError::InvalidAddress(field))
        } else {
            None
        },
    }
}

/// The settings hold exactly what was read: each text as it stands, each
/// address as its text decodes.
pub open spec fn holds_values_of(config: ClientConfig, raw: RawConfig) -> bool {
    &&& Some(config.http_url) == raw.http_url
    &&& Some(config.ws_url) == raw.ws_url
    &&& Some(config.payer_path) == raw.payer_path
    &&& Some(config.admin_path) == raw.admin_path
    &&& Some(config.withdrawer_path) == raw.withdrawer_path
    &&& Some(config.admin_key@) == spec_parse_address(raw.admin_key.unwrap()@)
    &&& Some(config.raydium_program@) == spec_parse_address(raw.raydium_program.unwrap()@)
    &&& Some(config.pnl_owner@) == spec_parse_address(raw.pnl_owner.unwrap()@)
    &&& Some(config.withdrawer@) == spec_parse_address(raw.withdrawer.unwrap()@)
    &&& Some(config.amm_pool@) == spec_parse_address(raw.amm_pool.unwrap()@)
    &&& Some(config.amm_open_orders@) == spec_parse_address(raw.amm_open_orders.unwrap()@)
    &&& Some(config.amm_coin_vault@) == spec_parse_address(raw.amm_coin_vault.unwrap()@)
    &&& Some(config.amm_pc_vault@) == spec_parse_address(raw.amm_pc_vault.unwrap()@)
    &&& Some(config.amm_target_orders@) == spec_parse_address(raw.amm_target_orders.unwrap()@)
    &&& Some(config.coin_mint@) == spec_parse_address(raw.coin_mint.unwrap()@)
    &&& Some(config.pc_mint@) == spec_parse_address(raw.pc_mint.unwrap()@)
}

/// What `validate` returns for the settings: the validated settings where
/// no field is in error, else the error of the first field that is.
pub open spec fn validation_outcome(raw: RawConfig, res: Result<ClientConfig, ConfigError>) -> bool {
    match res {
        Ok(config) => {
            &&& forall|field: ConfigField| (#[trigger] field_error(raw, field)) is None
            &&& holds_values_of(config, raw)
        },
        Err(error) => {
            &&& field_error(raw, error.spec_field()) == Some(error)
            &&& forall|field: ConfigField|
                field.spec_position() < error.spec_field().spec_position() ==> (#[trigger] field_error(
                    raw,
                    field,
                )) is None
        },
    }
}

/// Validation knows one outcome for given settings: two results that both
/// meet its contract are both errors, and then the same error, or both
/// settings with the same addresses and texts.
pub proof fn validation_is_deterministic(
    raw: RawConfig,
    first: Result<ClientConfig, ConfigError>,
    second: Result<ClientConfig, ConfigError>,
)
    requires
        validation_outcome(raw, first),
        validation_outcome(raw, second),
    ensures
        first is Ok <==> second is Ok,
        first is Err ==> first == second,
        first matches Ok(a) ==> holds_values_of(a, raw) && holds_values_of(second.unwrap(), raw),
{
    match (first, second) {
        (Err(a), Err(b)) => {
            let fa = a.spec_field();
            let fb = b.spec_field();
            if fa.spec_position() < fb.spec_position() {
                assert(field_error(raw, fa) is None);
            } else if fb.spec_position() < fa.spec_position() {
                assert(field_error(raw, fb) is None);
            }
            assert(fa == fb);
        },
        (Ok(_), Err(b)) => {
            assert(field_error(raw, b.spec_field()) is None);
        },
        (Err(a), Ok(_)) => {
            assert(field_error(raw, a.spec_field()) is None);
        },
        (Ok(_), Ok(_)) => {},
    }
}

/// Checks a field that spells an address: it must be there, not be empty,
/// and decode.
fn require_address(field: ConfigField, value: &Option<String>) -> (res: Result<Address, ConfigError>)
    ensures
        match res {
            Ok(address) => value matches Some(text) && text@.len() > 0 && spec_parse_address(
                text@,
            ) == Some(address@),
            Err(ConfigError::Missing(f)) => f == field && value is None,
            Err(ConfigError::Empty(f)) => f == field && (value matches Some(text) && text@.len()
                == 0),
            Err(ConfigError::InvalidAddress(f)) => f == field && (value matches Some(text)
                && text@.len() > 0 && spec_parse_address(text@) is None),
        },
{
    match value {
        None => Err(ConfigError::Missing(field)),
        Some(text) => {
            if text.as_str().is_empty() {
                Err(ConfigError::Empty(field))
            } else {
                match Address::parse(text.as_str()) {
                    Some(address) => Ok(address),
                    None => Err(ConfigError::InvalidAddress(field)),
                }
            }
        },
    }
}

impl ClientConfig {
    /// Validates the settings field by field, in the order of
    /// `ConfigField`, and stops at the first field that is missing, empty
    /// or, where it should spell an address, malformed.
    pub fn validate(raw: RawConfig) -> (res: Result<ClientConfig, ConfigError>)
        ensures
            validation_outcome(raw, res),
    {
        if raw.http_url.is_none() {
            return Err(ConfigError::Missing(ConfigField::HttpUrl));
        }
        if raw.http_url.as_ref().unwrap().as_str().is_empty() {
            return Err(ConfigError::Empty(ConfigField::HttpUrl));
        }
        if raw.ws_url.is_none() {
            return Err(ConfigError::Missing(ConfigField::WsUrl));
        }
        if raw.ws_url.as_ref().unwrap().as_str().is_empty() {
            return Err(ConfigError::Empty(ConfigField::WsUrl));
        }
        if raw.payer_path.is_none() {
            return Err(ConfigError::Missing(ConfigField::PayerPath));
        }
        if raw.payer_path.as_ref().unwrap().as_str().is_empty() {
            return Err(ConfigError::Empty(ConfigField::PayerPath));
        }
        if raw.admin_path.is_none() {
            return Err(ConfigError::Missing(ConfigField::AdminPath));
        }
        if raw.admin_path.as_ref().unwrap().as_str().is_empty() {
            return Err(ConfigError::Empty(ConfigField::AdminPath));
        }
        if raw.withdrawer_path.is_none() {
            return Err(ConfigError::Missing(ConfigField::WithdrawerPath));
        }
        if raw.withdrawer_path.as_ref().unwrap().as_str().is_empty() {
            return Err(ConfigError::Empty(ConfigField::WithdrawerPath));
        }
        let raydium_program = match require_address(ConfigField::RaydiumProgram, &raw.raydium_program) {
            Ok(address) => address,
            Err(error) => {
                return Err(error);
            },
        };
        let pnl_owner = match require_address(ConfigField::PnlOwner, &raw.pnl_owner) {
            Ok(address) => address,
            Err(error) => {
                return Err(error);
            },
        };
        let withdrawer = match require_address(ConfigField::Withdrawer, &raw.withdrawer) {
            Ok(address) => address,
            Err(error) => {
                return Err(error);
            },
        };
        let admin_key = match require_address(ConfigField::AdminKey, &raw.admin_key) {
            Ok(address) => address,
            Err(error) => {
                return Err(error);
            },
        };
        let amm_pool = match require_address(ConfigField::AmmPool, &raw.amm_pool) {
            Ok(address) => address,
            Err(error) => {
                return Err(error);
            },
        };
        let amm_open_orders = match require_address(ConfigField::AmmOpenOrders, &raw.amm_open_orders) {
            Ok(address) => address,
            Err(error) => {
                return Err(error);
            },
        };
        let amm_coin_vault = match require_address(ConfigField::AmmCoinVault, &raw.amm_coin_vault) {
            Ok(address) => address,
            Err(error) => {
                return Err(error);
            },
        };
        let amm_pc_vault = match require_address(ConfigField::AmmPcVault, &raw.amm_pc_vault) {
            Ok(address) => address,
            Err(error) => {
                return Err(error);
            },
        };
        let amm_target_orders = match require_address(ConfigField::AmmTargetOrders, &raw.amm_target_orders) {
            Ok(address) => address,
            Err(error) => {
                return Err(error);
            },
        };
        let coin_mint = match require_address(ConfigField::CoinMint, &raw.coin_mint) {
            Ok(address) => address,
            Err(error) => {
                return Err(error);
            },
        };
        let pc_mint = match require_address(ConfigField::PcMint, &raw.pc_mint) {
            Ok(address) => address,
            Err(error) => {
                return Err(error);
            },
        };
        let RawConfig { http_url, ws_url, payer_path, admin_path, withdrawer_path, .. } = raw;
        let config = ClientConfig {
            http_url: http_url.unwrap(),
            ws_url: ws_url.unwrap(),
            payer_path: payer_path.unwrap(),
            admin_path: admin_path.unwrap(),
            withdrawer_path: withdrawer_path.unwrap(),
            admin_key,
            raydium_program,
            pnl_owner,
            withdrawer,
            amm_pool,
            amm_open_orders,
            amm_coin_vault,
            amm_pc_vault,
            amm_target_orders,
            coin_mint,
            pc_mint,
        };
        assert forall|field: ConfigField| (#[trigger] field_error(raw, field)) is None by {
            match field {
                ConfigField::HttpUrl => {},
                ConfigField::WsUrl => {},
                ConfigField::PayerPath => {},
                ConfigField::AdminPath => {},
                ConfigField::WithdrawerPath => {},
                ConfigField::RaydiumProgram => {},
                ConfigField::PnlOwner => {},
                ConfigField::Withdrawer => {},
                ConfigField::AdminKey => {},
                ConfigField::AmmPool => {},
                ConfigField::AmmOpenOrders => {},
                ConfigField::AmmCoinVault => {},
                ConfigField::AmmPcVault => {},
                ConfigField::AmmTargetOrders => {},
                ConfigField::CoinMint => {},
                ConfigField::PcMint => {},
            }
        }
        Ok(config)
    }
}

} // verus!
