//! Accounts: what they are, what happened in them and what they hold.

use crate::decode::{
    bool_from, list_from, named_from, number_from, read_bool, read_list_member, read_named,
    read_number, read_string, read_time, read_u32, string_from, time_from, u32_from, FromJson,
    Members, Named, ToJson,
};
use crate::encode::{
    all_encodable, are_json_forms, is_label_json, is_time_json, lemma_forms_decode, named_json,
    number_json, text_json, time_json, u32_json, whole_number, write_list,
};
use crate::error::ApiError;
use crate::json::{find, lemma_lookup_by_name, lookup, names_of, put, Json, Number};
use crate::text::{lemma_outline, same_text};
use crate::time::DateTime;
use vstd::prelude::*;

verus! {

/// Account record.
#[derive(Clone, Debug, PartialEq, Eq)]
pub struct Account {
    /// Type of the account (e.g., Cash, Margin).
    pub account_type: AccountType,
    /// Eight-digit account number (e.g., "26598145").
    pub number: String,
    /// Status of the account (e.g., Active).
    pub status: AccountStatus,
    /// Whether this is a primary account for the holder.
    pub is_primary: bool,
    /// Whether this account is one that gets billed for various expenses such as inactivity fees,
    /// market data, etc.
    pub is_billing: bool,
    /// Type of client holding the account (e.g., "Individual").
    pub client_account_type: ClientAccountType,
}

impl FromJson for Account {
    open spec fn wf(&self) -> bool {
        true
    }

    open spec fn decoded(j: Json) -> Result<Account, ApiError> {
        match j {
            Json::Object(members) => {
                let m = members@;
                let account_type = named_from::<AccountType>(lookup(m, "type"@), "type");
                let number = string_from(lookup(m, "number"@), "number");
                let status = named_from::<AccountStatus>(lookup(m, "status"@), "status");
                let is_primary = bool_from(lookup(m, "isPrimary"@), "isPrimary");
                let is_billing = bool_from(lookup(m, "isBilling"@), "isBilling");
                let client_account_type = named_from::<ClientAccountType>(
                    lookup(m, "clientAccountType"@),
                    "clientAccountType",
                );
                if account_type is Err {
                    Err(account_type->Err_0)
                } else if number is Err {
                    Err(number->Err_0)
                } else if status is Err {
                    Err(status->Err_0)
                } else if is_primary is Err {
                    Err(is_primary->Err_0)
                } else if is_billing is Err {
                    Err(is_billing->Err_0)
                } else if client_account_type is Err {
                    Err(client_account_type->Err_0)
                } else {
                    Ok(Account {
                        account_type: account_type->Ok_0,
                        number: number->Ok_0,
                        status: status->Ok_0,
                        is_primary: is_primary->Ok_0,
                        is_billing: is_billing->Ok_0,
                        client_account_type: client_account_type->Ok_0,
                    })
                }
            },
            _ => Err(ApiError::InvalidTypeError("Account", "object")),
        }
    }

    fn from_json(j: &Json) -> (r: Result<Account, ApiError>) {
        match j {
            Json::Object(members) => {
                let account_type = read_named::<AccountType>(find(members, "type"), "type")?;
                let number = read_string(find(members, "number"), "number")?;
                let status = read_named::<AccountStatus>(find(members, "status"), "status")?;
                let is_primary = read_bool(find(members, "isPrimary"), "isPrimary")?;
                let is_billing = read_bool(find(members, "isBilling"), "isBilling")?;
                let client_account_type = read_named::<ClientAccountType>(
                    find(members, "clientAccountType"),
                    "clientAccountType",
                )?;
                Ok(Account {
                    account_type,
                    number,
                    status,
                    is_primary,
                    is_billing,
                    client_account_type,
                })
            },
            _ => Err(ApiError::InvalidTypeError("Account", "object")),
        }
    }
}

impl Account {
    /// In an object with the member names of the JSON form, each name finds the
    /// member at its own place: no two of the names are the same.
    pub proof fn lemma_members_found(members: Seq<(String, Json)>)
        requires
            names_of(members) == Self::member_names(),
        ensures
            lookup(members, "type"@) == Some(members[0].1),
            lookup(members, "number"@) == Some(members[1].1),
            lookup(members, "status"@) == Some(members[2].1),
            lookup(members, "isPrimary"@) == Some(members[3].1),
            lookup(members, "isBilling"@) == Some(members[4].1),
            lookup(members, "clientAccountType"@) == Some(members[5].1),
    {
        reveal_strlit("type");
        reveal_strlit("number");
        reveal_strlit("status");
        reveal_strlit("isPrimary");
        reveal_strlit("isBilling");
        reveal_strlit("clientAccountType");
        lemma_outline("type"@);
        lemma_outline("number"@);
        lemma_outline("status"@);
        lemma_outline("isPrimary"@);
        lemma_outline("isBilling"@);
        lemma_outline("clientAccountType"@);
        let names = Self::member_names();
        assert forall|i: int, j: int|
            0 <= i < names.len() && 0 <= j < names.len() && i != j implies names[i]
            != names[j] by {}
        lemma_lookup_by_name(members, 0);
        lemma_lookup_by_name(members, 1);
        lemma_lookup_by_name(members, 2);
        lemma_lookup_by_name(members, 3);
        lemma_lookup_by_name(members, 4);
        lemma_lookup_by_name(members, 5);
    }
}

impl ToJson for Account {
    open spec fn encodable(&self) -> bool {
        &&& self.wf()
    }

    open spec fn member_names() -> Seq<Seq<char>> {
        seq![
            "type"@,
            "number"@,
            "status"@,
            "isPrimary"@,
            "isBilling"@,
            "clientAccountType"@,
        ]
    }

    open spec fn written(&self, members: Seq<(String, Json)>) -> bool {
        &&& members.len() == 6
        &&& is_label_json(members[0].1, self.account_type.label())
        &&& members[1].1 == Json::String(self.number)
        &&& is_label_json(members[2].1, self.status.label())
        &&& members[3].1 == Json::Bool(self.is_primary)
        &&& members[4].1 == Json::Bool(self.is_billing)
        &&& is_label_json(members[5].1, self.client_account_type.label())
    }

    proof fn lemma_round_trip(&self, j: Json) {
        self.account_type.lemma_label_names();
        self.status.lemma_label_names();
        self.client_account_type.lemma_label_names();
        Self::lemma_members_found(j->Object_0@);
    }

    fn to_json(&self) -> (r: Option<Json>) {
        let mut members: Members = Vec::new();
        put(&mut members, "type", named_json(&self.account_type));
        put(&mut members, "number", text_json(&self.number));
        put(&mut members, "status", named_json(&self.status));
        put(&mut members, "isPrimary", Json::Bool(self.is_primary));
        put(&mut members, "isBilling", Json::Bool(self.is_billing));
        put(&mut members, "clientAccountType", named_json(&self.client_account_type));
        let j = Json::Object(members);
        proof {
            assert(names_of(j->Object_0@) =~= Self::member_names());
            self.lemma_round_trip(j);
        }
        Some(j)
    }
}

/// Type of account.
#[derive(Clone, Copy, Debug, PartialEq, Eq, Structural)]
pub enum AccountType {
    /// Cash account.
    Cash,
    /// Margin account.
    Margin,
    /// Tax Free Savings Account.
    TFSA,
    /// Registered Retirement Savings Plan.
    RRSP,
    /// Spousal RRSP.
    SRRSP,
    /// Locked-In RRSP.
    LRRSP,
    /// Locked-In Retirement Account.
    LIRA,
    /// Life Income Fund.
    LIF,
    /// Retirement Income Fund.
    RIF,
    /// Spousal RIF.
    SRIF,
    /// Locked-In RIF.
    LRIF,
    /// Registered RIF.
    RRIF,
    /// Prescribed RIF.
    PRIF,
    /// Individual Registered Education Savings Plan.
    RESP,
    /// Family RESP.
    FRESP,
}

impl Named for AccountType {
    open spec fn kind() -> &'static str {
        "AccountType"
    }

    open spec fn label(self) -> Seq<char> {
        match self {
            AccountType::Cash => "Cash"@,
            AccountType::Margin => "Margin"@,
            AccountType::TFSA => "TFSA"@,
            AccountType::RRSP => "RRSP"@,
            AccountType::SRRSP => "SRRSP"@,
            AccountType::LRRSP => "LRRSP"@,
            AccountType::LIRA => "LIRA"@,
            AccountType::LIF => "LIF"@,
            AccountType::RIF => "RIF"@,
            AccountType::SRIF => "SRIF"@,
            AccountType::LRIF => "LRIF"@,
            AccountType::RRIF => "RRIF"@,
            AccountType::PRIF => "PRIF"@,
            AccountType::RESP => "RESP"@,
            AccountType::FRESP => "FRESP"@,
        }
    }

    open spec fn named(text: Seq<char>) -> Option<AccountType> {
        if text == "Cash"@ {
            Some(AccountType::Cash)
        } else if text == "Margin"@ {
            Some(AccountType::Margin)
        } else if text == "TFSA"@ {
            Some(AccountType::TFSA)
        } else if text == "RRSP"@ {
            Some(AccountType::RRSP)
        } else if text == "SRRSP"@ {
            Some(AccountType::SRRSP)
        } else if text == "LRRSP"@ {
            Some(AccountType::LRRSP)
        } else if text == "LIRA"@ {
            Some(AccountType::LIRA)
        } else if text == "LIF"@ {
            Some(AccountType::LIF)
        } else if text == "RIF"@ {
            Some(AccountType::RIF)
        } else if text == "SRIF"@ {
            Some(AccountType::SRIF)
        } else if text == "LRIF"@ {
            Some(AccountType::LRIF)
        } else if text == "RRIF"@ {
            Some(AccountType::RRIF)
        } else if text == "PRIF"@ {
            Some(AccountType::PRIF)
        } else if text == "RESP"@ {
            Some(AccountType::RESP)
        } else if text == "FRESP"@ {
            Some(AccountType::FRESP)
        } else {
            None
        }
    }

    proof fn lemma_label_names(self) {
        reveal_strlit("Cash");
        reveal_strlit("Margin");
        reveal_strlit("TFSA");
        reveal_strlit("RRSP");
        reveal_strlit("SRRSP");
        reveal_strlit("LRRSP");
        reveal_strlit("LIRA");
        reveal_strlit("LIF");
        reveal_strlit("RIF");
        reveal_strlit("SRIF");
        reveal_strlit("LRIF");
        reveal_strlit("RRIF");
        reveal_strlit("PRIF");
        reveal_strlit("RESP");
        reveal_strlit("FRESP");
        lemma_outline("Cash"@);
        lemma_outline("Margin"@);
        lemma_outline("TFSA"@);
        lemma_outline("RRSP"@);
        lemma_outline("SRRSP"@);
        lemma_outline("LRRSP"@);
        lemma_outline("LIRA"@);
        lemma_outline("LIF"@);
        lemma_outline("RIF"@);
        lemma_outline("SRIF"@);
        lemma_outline("LRIF"@);
        lemma_outline("RRIF"@);
        lemma_outline("PRIF"@);
        lemma_outline("RESP"@);
        lemma_outline("FRESP"@);
    }

    fn kind_name() -> (r: &'static str) {
        "AccountType"
    }

    fn name(&self) -> (r: &'static str) {
        match self {
            AccountType::Cash => "Cash",
            AccountType::Margin => "Margin",
            AccountType::TFSA => "TFSA",
            AccountType::RRSP => "RRSP",
            AccountType::SRRSP => "SRRSP",
            AccountType::LRRSP => "LRRSP",
            AccountType::LIRA => "LIRA",
            AccountType::LIF => "LIF",
            AccountType::RIF => "RIF",
            AccountType::SRIF => "SRIF",
            AccountType::LRIF => "LRIF",
            AccountType::RRIF => "RRIF",
            AccountType::PRIF => "PRIF",
            AccountType::RESP => "RESP",
            AccountType::FRESP => "FRESP",
        }
    }

    fn from_name(text: &str) -> (r: Option<AccountType>) {
        if same_text(text, "Cash") {
            Some(AccountType::Cash)
        } else if same_text(text, "Margin") {
            Some(AccountType::Margin)
        } else if same_text(text, "TFSA") {
            Some(AccountType::TFSA)
        } else if same_text(text, "RRSP") {
            Some(AccountType::RRSP)
        } else if same_text(text, "SRRSP") {
            Some(AccountType::SRRSP)
        } else if same_text(text, "LRRSP") {
            Some(AccountType::LRRSP)
        } else if same_text(text, "LIRA") {
            Some(AccountType::LIRA)
        } else if same_text(text, "LIF") {
            Some(AccountType::LIF)
        } else if same_text(text, "RIF") {
            Some(AccountType::RIF)
        } else if same_text(text, "SRIF") {
            Some(AccountType::SRIF)
        } else if same_text(text, "LRIF") {
            Some(AccountType::LRIF)
        } else if same_text(text, "RRIF") {
            Some(AccountType::RRIF)
        } else if same_text(text, "PRIF") {
            Some(AccountType::PRIF)
        } else if same_text(text, "RESP") {
            Some(AccountType::RESP)
        } else if same_text(text, "FRESP") {
            Some(AccountType::FRESP)
        } else {
            None
        }
    }
}

/// Status of an account.
#[derive(Clone, Copy, Debug, PartialEq, Eq, Structural)]
pub enum AccountStatus {
    Active,
    SuspendedClosed,
    SuspendedViewOnly,
    Liquidate,
    Closed,
}

impl Named for AccountStatus {
    open spec fn kind() -> &'static str {
        "AccountStatus"
    }

    open spec fn label(self) -> Seq<char> {
        match self {
            AccountStatus::Active => "Active"@,
            AccountStatus::SuspendedClosed => "Suspended (Closed)"@,
            AccountStatus::SuspendedViewOnly => "Suspended (View Only)"@,
            AccountStatus::Liquidate => "Liquidate Only"@,
            AccountStatus::Closed => "Closed"@,
        }
    }

    open spec fn named(text: Seq<char>) -> Option<AccountStatus> {
        if text == "Active"@ {
            Some(AccountStatus::Active)
        } else if text == "Suspended (Closed)"@ {
            Some(AccountStatus::SuspendedClosed)
        } else if text == "Suspended (View Only)"@ {
            Some(AccountStatus::SuspendedViewOnly)
        } else if text == "Liquidate Only"@ {
            Some(AccountStatus::Liquidate)
        } else if text == "Closed"@ {
            Some(AccountStatus::Closed)
        } else {
            None
        }
    }

    proof fn lemma_label_names(self) {
        reveal_strlit("Active");
        reveal_strlit("Suspended (Closed)");
        reveal_strlit("Suspended (View Only)");
        reveal_strlit("Liquidate Only");
        reveal_strlit("Closed");
        lemma_outline("Active"@);
        lemma_outline("Suspended (Closed)"@);
        lemma_outline("Suspended (View Only)"@);
        lemma_outline("Liquidate Only"@);
        lemma_outline("Closed"@);
    }

    fn kind_name() -> (r: &'static str) {
        "AccountStatus"
    }

    fn name(&self) -> (r: &'static str) {
        match self {
            AccountStatus::Active => "Active",
            AccountStatus::SuspendedClosed => "Suspended (Closed)",
            AccountStatus::SuspendedViewOnly => "Suspended (View Only)",
            AccountStatus::Liquidate => "Liquidate Only",
            AccountStatus::Closed => "Closed",
        }
    }

    fn from_name(text: &str) -> (r: Option<AccountStatus>) {
        if same_text(text, "Active") {
            Some(AccountStatus::Active)
        } else if same_text(text, "Suspended (Closed)") {
            Some(AccountStatus::SuspendedClosed)
        } else if same_text(text, "Suspended (View Only)") {
            Some(AccountStatus::SuspendedViewOnly)
        } else if same_text(text, "Liquidate Only") {
            Some(AccountStatus::Liquidate)
        } else if same_text(text, "Closed") {
            Some(AccountStatus::Closed)
        } else {
            None
        }
    }
}

/// Type of client this account is associated with.
#[derive(Clone, Copy, Debug, PartialEq, Eq, Structural)]
pub enum ClientAccountType {
    /// Account held by an individual.
    Individual,
    /// Account held jointly by several individuals (e.g., spouses).
    Joint,
    /// Non-individual account held by an informal trust.
    InformalTrust,
    /// Non-individual account held by a corporation.
    Corporation,
    /// Non-individual account held by an investment club.
    InvestmentClub,
    /// Non-individual account held by a formal trust.
    FormalTrust,
    /// Non-individual account held by a partnership.
    Partnership,
    /// Non-individual account held by a sole proprietorship.
    SoleProprietorship,
    /// Account held by a family.
    Family,
    /// Non-individual account held by a joint and informal trust.
    JointAndInformalTrust,
    /// Non-individual account held by an institution.
    Institution,
}

impl Named for ClientAccountType {
    open spec fn kind() -> &'static str {
        "ClientAccountType"
    }

    open spec fn label(self) -> Seq<char> {
        match self {
            ClientAccountType::Individual => "Individual"@,
            ClientAccountType::Joint => "Joint"@,
            ClientAccountType::InformalTrust => "Informal Trust"@,
            ClientAccountType::Corporation => "Corporation"@,
            ClientAccountType::InvestmentClub => "Investment Club"@,
            ClientAccountType::FormalTrust => "Formal Trust"@,
            ClientAccountType::Partnership => "Partnership"@,
            ClientAccountType::SoleProprietorship => "Sole Proprietorship"@,
            ClientAccountType::Family => "Family"@,
            ClientAccountType::JointAndInformalTrust => "Joint and Informal Trust"@,
            ClientAccountType::Institution => "Institution"@,
        }
    }

    open spec fn named(text: Seq<char>) -> Option<ClientAccountType> {
        if text == "Individual"@ {
            Some(ClientAccountType::Individual)
        } else if text == "Joint"@ {
            Some(ClientAccountType::Joint)
        } else if text == "Informal Trust"@ {
            Some(ClientAccountType::InformalTrust)
        } else if text == "Corporation"@ {
            Some(ClientAccountType::Corporation)
        } else if text == "Investment Club"@ {
            Some(ClientAccountType::InvestmentClub)
        } else if text == "Formal Trust"@ {
            Some(ClientAccountType::FormalTrust)
        } else if text == "Partnership"@ {
            Some(ClientAccountType::Partnership)
        } else if text == "Sole Proprietorship"@ {
            Some(ClientAccountType::SoleProprietorship)
        } else if text == "Family"@ {
            Some(ClientAccountType::Family)
        } else if text == "Joint and Informal Trust"@ {
            Some(ClientAccountType::JointAndInformalTrust)
        } else if text == "Institution"@ {
            Some(ClientAccountType::Institution)
        } else {
            None
        }
    }

    proof fn lemma_label_names(self) {
        reveal_strlit("Individual");
        reveal_strlit("Joint");
        reveal_strlit("Informal Trust");
        reveal_strlit("Corporation");
        reveal_strlit("Investment Club");
        reveal_strlit("Formal Trust");
        reveal_strlit("Partnership");
        reveal_strlit("Sole Proprietorship");
        reveal_strlit("Family");
        reveal_strlit("Joint and Informal Trust");
        reveal_strlit("Institution");
        lemma_outline("Individual"@);
        lemma_outline("Joint"@);
        lemma_outline("Informal Trust"@);
        lemma_outline("Corporation"@);
        lemma_outline("Investment Club"@);
        lemma_outline("Formal Trust"@);
        lemma_outline("Partnership"@);
        lemma_outline("Sole Proprietorship"@);
        lemma_outline("Family"@);
        lemma_outline("Joint and Informal Trust"@);
        lemma_outline("Institution"@);
    }

    fn kind_name() -> (r: &'static str) {
        "ClientAccountType"
    }

    fn name(&self) -> (r: &'static str) {
        match self {
            ClientAccountType::Individual => "Individual",
            ClientAccountType::Joint => "Joint",
            ClientAccountType::InformalTrust => "Informal Trust",
            ClientAccountType::Corporation => "Corporation",
            ClientAccountType::InvestmentClub => "Investment Club",
            ClientAccountType::FormalTrust => "Formal Trust",
            ClientAccountType::Partnership => "Partnership",
            ClientAccountType::SoleProprietorship => "Sole Proprietorship",
            ClientAccountType::Family => "Family",
            ClientAccountType::JointAndInformalTrust => "Joint and Informal Trust",
            ClientAccountType::Institution => "Institution",
        }
    }

    fn from_name(text: &str) -> (r: Option<ClientAccountType>) {
        if same_text(text, "Individual") {
            Some(ClientAccountType::Individual)
        } else if same_text(text, "Joint") {
            Some(ClientAccountType::Joint)
        } else if same_text(text, "Informal Trust") {
            Some(ClientAccountType::InformalTrust)
        } else if same_text(text, "Corporation") {
            Some(ClientAccountType::Corporation)
        } else if same_text(text, "Investment Club") {
            Some(ClientAccountType::InvestmentClub)
        } else if same_text(text, "Formal Trust") {
            Some(ClientAccountType::FormalTrust)
        } else if same_text(text, "Partnership") {
            Some(ClientAccountType::Partnership)
        } else if same_text(text, "Sole Proprietorship") {
            Some(ClientAccountType::SoleProprietorship)
        } else if same_text(text, "Family") {
            Some(ClientAccountType::Family)
        } else if same_text(text, "Joint and Informal Trust") {
            Some(ClientAccountType::JointAndInformalTrust)
        } else if same_text(text, "Institution") {
            Some(ClientAccountType::Institution)
        } else {
            None
        }
    }
}

/// An activity that occurred in an account.
#[derive(Clone, Debug, PartialEq, Eq)]
pub struct AccountActivity {
    /// Trade date.
    pub trade_date: DateTime,
    /// Date of the transaction.
    pub transaction_date: DateTime,
    /// Date the trade was settled.
    pub settlement_date: DateTime,
    /// Activity action.
    pub action: String,
    /// Symbol name.
    pub symbol: String,
    /// Internal unique symbol identifier.
    pub symbol_id: u32,
    /// Textual description of the activity.
    pub description: String,
    /// Activity currency (ISO format).
    pub currency: String,
    /// Number of items exchanged in the activity.
    pub quantity: Number,
    /// Price of the items.
    pub price: Number,
    /// Gross amount of the action, before fees.
    pub gross_amount: Number,
    /// Questrade commission amount.
    pub commission: Number,
    /// Net amount of the action, after fees.
    pub net_amount: Number,
    /// Type of activity.
    pub activity_type: String,
}

impl FromJson for AccountActivity {
    open spec fn wf(&self) -> bool {
        true
    }

    open spec fn decoded(j: Json) -> Result<AccountActivity, ApiError> {
        match j {
            Json::Object(members) => {
                let m = members@;
                let trade_date = time_from(lookup(m, "tradeDate"@), "tradeDate");
                let transaction_date = time_from(lookup(m, "transactionDate"@), "transactionDate");
                let settlement_date = time_from(lookup(m, "settlementDate"@), "settlementDate");
                let action = string_from(lookup(m, "action"@), "action");
                let symbol = string_from(lookup(m, "symbol"@), "symbol");
                let symbol_id = u32_from(lookup(m, "symbolId"@), "symbolId");
                let description = string_from(lookup(m, "description"@), "description");
                let currency = string_from(lookup(m, "currency"@), "currency");
                let quantity = number_from(lookup(m, "quantity"@), "quantity");
                let price = number_from(lookup(m, "price"@), "price");
                let gross_amount = number_from(lookup(m, "grossAmount"@), "grossAmount");
                let commission = number_from(lookup(m, "commission"@), "commission");
                let net_amount = number_from(lookup(m, "netAmount"@), "netAmount");
                let activity_type = string_from(lookup(m, "type"@), "type");
                if trade_date is Err {
                    Err(trade_date->Err_0)
                } else if transaction_date is Err {
                    Err(transaction_date->Err_0)
                } else if settlement_date is Err {
                    Err(settlement_date->Err_0)
                } else if action is Err {
                    Err(action->Err_0)
                } else if symbol is Err {
                    Err(symbol->Err_0)
                } else if symbol_id is Err {
                    Err(symbol_id->Err_0)
                } else if description is Err {
                    Err(description->Err_0)
                } else if currency is Err {
                    Err(currency->Err_0)
                } else if quantity is Err {
                    Err(quantity->Err_0)
                } else if price is Err {
                    Err(price->Err_0)
                } else if gross_amount is Err {
                    Err(gross_amount->Err_0)
                } else if commission is Err {
                    Err(commission->Err_0)
                } else if net_amount is Err {
                    Err(net_amount->Err_0)
                } else if activity_type is Err {
                    Err(activity_type->Err_0)
                } else {
                    Ok(AccountActivity {
                        trade_date: trade_date->Ok_0,
                        transaction_date: transaction_date->Ok_0,
                        settlement_date: settlement_date->Ok_0,
                        action: action->Ok_0,
                        symbol: symbol->Ok_0,
                        symbol_id: symbol_id->Ok_0,
                        description: description->Ok_0,
                        currency: currency->Ok_0,
                        quantity: quantity->Ok_0,
                        price: price->Ok_0,
                        gross_amount: gross_amount->Ok_0,
                        commission: commission->Ok_0,
                        net_amount: net_amount->Ok_0,
                        activity_type: activity_type->Ok_0,
                    })
                }
            },
            _ => Err(ApiError::InvalidTypeError("AccountActivity", "object")),
        }
    }

    fn from_json(j: &Json) -> (r: Result<AccountActivity, ApiError>) {
        match j {
            Json::Object(members) => {
                let trade_date = read_time(find(members, "tradeDate"), "tradeDate")?;
                let transaction_date = read_time(
                    find(members, "transactionDate"),
                    "transactionDate",
                )?;
                let settlement_date = read_time(find(members, "settlementDate"), "settlementDate")?;
                let action = read_string(find(members, "action"), "action")?;
                let symbol = read_string(find(members, "symbol"), "symbol")?;
                let symbol_id = read_u32(find(members, "symbolId"), "symbolId")?;
                let description = read_string(find(members, "description"), "description")?;
                let currency = read_string(find(members, "currency"), "currency")?;
                let quantity = read_number(find(members, "quantity"), "quantity")?;
                let price = read_number(find(members, "price"), "price")?;
                let gross_amount = read_number(find(members, "grossAmount"), "grossAmount")?;
                let commission = read_number(find(members, "commission"), "commission")?;
                let net_amount = read_number(find(members, "netAmount"), "netAmount")?;
                let activity_type = read_string(find(members, "type"), "type")?;
                Ok(AccountActivity {
                    trade_date,
                    transaction_date,
                    settlement_date,
                    action,
                    symbol,
                    symbol_id,
                    description,
                    currency,
                    quantity,
                    price,
                    gross_amount,
                    commission,
                    net_amount,
                    activity_type,
                })
            },
            _ => Err(ApiError::InvalidTypeError("AccountActivity", "object")),
        }
    }
}

impl AccountActivity {
    /// In an object with the member names of the JSON form, each name finds the
    /// member at its own place: no two of the names are the same.
    pub proof fn lemma_members_found(members: Seq<(String, Json)>)
        requires
            names_of(members) == Self::member_names(),
        ensures
            lookup(members, "tradeDate"@) == Some(members[0].1),
            lookup(members, "transactionDate"@) == Some(members[1].1),
            lookup(members, "settlementDate"@) == Some(members[2].1),
            lookup(members, "action"@) == Some(members[3].1),
            lookup(members, "symbol"@) == Some(members[4].1),
            lookup(members, "symbolId"@) == Some(members[5].1),
            lookup(members, "description"@) == Some(members[6].1),
            lookup(members, "currency"@) == Some(members[7].1),
            lookup(members, "quantity"@) == Some(members[8].1),
            lookup(members, "price"@) == Some(members[9].1),
            lookup(members, "grossAmount"@) == Some(members[10].1),
            lookup(members, "commission"@) == Some(members[11].1),
            lookup(members, "netAmount"@) == Some(members[12].1),
            lookup(members, "type"@) == Some(members[13].1),
    {
        reveal_strlit("tradeDate");
        reveal_strlit("transactionDate");
        reveal_strlit("settlementDate");
        reveal_strlit("action");
        reveal_strlit("symbol");
        reveal_strlit("symbolId");
        reveal_strlit("description");
        reveal_strlit("currency");
        reveal_strlit("quantity");
        reveal_strlit("price");
        reveal_strlit("grossAmount");
        reveal_strlit("commission");
        reveal_strlit("netAmount");
        reveal_strlit("type");
        lemma_outline("tradeDate"@);
        lemma_outline("transactionDate"@);
        lemma_outline("settlementDate"@);
        lemma_outline("action"@);
        lemma_outline("symbol"@);
        lemma_outline("symbolId"@);
        lemma_outline("description"@);
        lemma_outline("currency"@);
        lemma_outline("quantity"@);
        lemma_outline("price"@);
        lemma_outline("grossAmount"@);
        lemma_outline("commission"@);
        lemma_outline("netAmount"@);
        lemma_outline("type"@);
        let names = Self::member_names();
        assert forall|i: int, j: int|
            0 <= i < names.len() && 0 <= j < names.len() && i != j implies names[i]
            != names[j] by {}
        lemma_lookup_by_name(members, 0);
        lemma_lookup_by_name(members, 1);
        lemma_lookup_by_name(members, 2);
        lemma_lookup_by_name(members, 3);
        lemma_lookup_by_name(members, 4);
        lemma_lookup_by_name(members, 5);
        lemma_lookup_by_name(members, 6);
        lemma_lookup_by_name(members, 7);
        lemma_lookup_by_name(members, 8);
        lemma_lookup_by_name(members, 9);
        lemma_lookup_by_name(members, 10);
        lemma_lookup_by_name(members, 11);
        lemma_lookup_by_name(members, 12);
        lemma_lookup_by_name(members, 13);
    }
}

impl ToJson for AccountActivity {
    open spec fn encodable(&self) -> bool {
        &&& self.wf()
        &&& self.trade_date.survives_json()
        &&& self.transaction_date.survives_json()
        &&& self.settlement_date.survives_json()
    }

    open spec fn member_names() -> Seq<Seq<char>> {
        seq![
            "tradeDate"@,
            "transactionDate"@,
            "settlementDate"@,
            "action"@,
            "symbol"@,
            "symbolId"@,
            "description"@,
            "currency"@,
            "quantity"@,
            "price"@,
            "grossAmount"@,
            "commission"@,
            "netAmount"@,
            "type"@,
        ]
    }

    open spec fn written(&self, members: Seq<(String, Json)>) -> bool {
        &&& members.len() == 14
        &&& is_time_json(members[0].1, self.trade_date)
        &&& is_time_json(members[1].1, self.transaction_date)
        &&& is_time_json(members[2].1, self.settlement_date)
        &&& members[3].1 == Json::String(self.action)
        &&& members[4].1 == Json::String(self.symbol)
        &&& members[5].1 == whole_number(self.symbol_id)
        &&& members[6].1 == Json::String(self.description)
        &&& members[7].1 == Json::String(self.currency)
        &&& members[8].1 == Json::Number(self.quantity)
        &&& members[9].1 == Json::Number(self.price)
        &&& members[10].1 == Json::Number(self.gross_amount)
        &&& members[11].1 == Json::Number(self.commission)
        &&& members[12].1 == Json::Number(self.net_amount)
        &&& members[13].1 == Json::String(self.activity_type)
    }

    proof fn lemma_round_trip(&self, j: Json) {
        Self::lemma_members_found(j->Object_0@);
    }

    fn to_json(&self) -> (r: Option<Json>) {
        let trade_date = match time_json(&self.trade_date) {
            Some(text) => text,
            None => {
                return None;
            },
        };
        let transaction_date = match time_json(&self.transaction_date) {
            Some(text) => text,
            None => {
                return None;
            },
        };
        let settlement_date = match time_json(&self.settlement_date) {
            Some(text) => text,
            None => {
                return None;
            },
        };
        let mut members: Members = Vec::new();
        put(&mut members, "tradeDate", trade_date);
        put(&mut members, "transactionDate", transaction_date);
        put(&mut members, "settlementDate", settlement_date);
        put(&mut members, "action", text_json(&self.action));
        put(&mut members, "symbol", text_json(&self.symbol));
        put(&mut members, "symbolId", u32_json(self.symbol_id));
        put(&mut members, "description", text_json(&self.description));
        put(&mut members, "currency", text_json(&self.currency));
        put(&mut members, "quantity", number_json(&self.quantity));
        put(&mut members, "price", number_json(&self.price));
        put(&mut members, "grossAmount", number_json(&self.gross_amount));
        put(&mut members, "commission", number_json(&self.commission));
        put(&mut members, "netAmount", number_json(&self.net_amount));
        put(&mut members, "type", text_json(&self.activity_type));
        let j = Json::Object(members);
        proof {
            assert(names_of(j->Object_0@) =~= Self::member_names());
            self.lemma_round_trip(j);
        }
        Some(j)
    }
}

/// Account balance for specific currency.
#[derive(Clone, Debug, PartialEq, Eq)]
pub struct AccountBalance {
    /// Currency of the balance figure.
    pub currency: Currency,
    /// Balance amount.
    pub cash: Number,
    /// Market value of all securities in the account in a given currency.
    pub market_value: Number,
    /// Equity as a difference between cash and marketValue properties.
    pub total_equity: Number,
    /// Buying power for that particular currency side of the account.
    pub buying_power: Number,
    /// Maintenance excess for that particular side of the account.
    pub maintenance_excess: Number,
    /// Whether real-time data was used to calculate the above balance.
    pub is_real_time: bool,
}

impl FromJson for AccountBalance {
    open spec fn wf(&self) -> bool {
        true
    }

    open spec fn decoded(j: Json) -> Result<AccountBalance, ApiError> {
        match j {
            Json::Object(members) => {
                let m = members@;
                let currency = named_from::<Currency>(lookup(m, "currency"@), "currency");
                let cash = number_from(lookup(m, "cash"@), "cash");
                let market_value = number_from(lookup(m, "marketValue"@), "marketValue");
                let total_equity = number_from(lookup(m, "totalEquity"@), "totalEquity");
                let buying_power = number_from(lookup(m, "buyingPower"@), "buyingPower");
                let maintenance_excess = number_from(
                    lookup(m, "maintenanceExcess"@),
                    "maintenanceExcess",
                );
                let is_real_time = bool_from(lookup(m, "isRealTime"@), "isRealTime");
                if currency is Err {
                    Err(currency->Err_0)
                } else if cash is Err {
                    Err(cash->Err_0)
                } else if market_value is Err {
                    Err(market_value->Err_0)
                } else if total_equity is Err {
                    Err(total_equity->Err_0)
                } else if buying_power is Err {
                    Err(buying_power->Err_0)
                } else if maintenance_excess is Err {
                    Err(maintenance_excess->Err_0)
                } else if is_real_time is Err {
                    Err(is_real_time->Err_0)
                } else {
                    Ok(AccountBalance {
                        currency: currency->Ok_0,
                        cash: cash->Ok_0,
                        market_value: market_value->Ok_0,
                        total_equity: total_equity->Ok_0,
                        buying_power: buying_power->Ok_0,
                        maintenance_excess: maintenance_excess->Ok_0,
                        is_real_time: is_real_time->Ok_0,
                    })
                }
            },
            _ => Err(ApiError::InvalidTypeError("AccountBalance", "object")),
        }
    }

    fn from_json(j: &Json) -> (r: Result<AccountBalance, ApiError>) {
        match j {
            Json::Object(members) => {
                let currency = read_named::<Currency>(find(members, "currency"), "currency")?;
                let cash = read_number(find(members, "cash"), "cash")?;
                let market_value = read_number(find(members, "marketValue"), "marketValue")?;
                let total_equity = read_number(find(members, "totalEquity"), "totalEquity")?;
                let buying_power = read_number(find(members, "buyingPower"), "buyingPower")?;
                let maintenance_excess = read_number(
                    find(members, "maintenanceExcess"),
                    "maintenanceExcess",
                )?;
                let is_real_time = read_bool(find(members, "isRealTime"), "isRealTime")?;
                Ok(AccountBalance {
                    currency,
                    cash,
                    market_value,
                    total_equity,
                    buying_power,
                    maintenance_excess,
                    is_real_time,
                })
            },
            _ => Err(ApiError::InvalidTypeError("AccountBalance", "object")),
        }
    }
}

impl AccountBalance {
    /// In an object with the member names of the JSON form, each name finds the
    /// member at its own place: no two of the names are the same.
    pub proof fn lemma_members_found(members: Seq<(String, Json)>)
        requires
            names_of(members) == Self::member_names(),
        ensures
            lookup(members, "currency"@) == Some(members[0].1),
            lookup(members, "cash"@) == Some(members[1].1),
            lookup(members, "marketValue"@) == Some(members[2].1),
            lookup(members, "totalEquity"@) == Some(members[3].1),
            lookup(members, "buyingPower"@) == Some(members[4].1),
            lookup(members, "maintenanceExcess"@) == Some(members[5].1),
            lookup(members, "isRealTime"@) == Some(members[6].1),
    {
        reveal_strlit("currency");
        reveal_strlit("cash");
        reveal_strlit("marketValue");
        reveal_strlit("totalEquity");
        reveal_strlit("buyingPower");
        reveal_strlit("maintenanceExcess");
        reveal_strlit("isRealTime");
        lemma_outline("currency"@);
        lemma_outline("cash"@);
        lemma_outline("marketValue"@);
        lemma_outline("totalEquity"@);
        lemma_outline("buyingPower"@);
        lemma_outline("maintenanceExcess"@);
        lemma_outline("isRealTime"@);
        let names = Self::member_names();
        assert forall|i: int, j: int|
            0 <= i < names.len() && 0 <= j < names.len() && i != j implies names[i]
            != names[j] by {}
        lemma_lookup_by_name(members, 0);
        lemma_lookup_by_name(members, 1);
        lemma_lookup_by_name(members, 2);
        lemma_lookup_by_name(members, 3);
        lemma_lookup_by_name(members, 4);
        lemma_lookup_by_name(members, 5);
        lemma_lookup_by_name(members, 6);
    }
}

impl ToJson for AccountBalance {
    open spec fn encodable(&self) -> bool {
        &&& self.wf()
    }

    open spec fn member_names() -> Seq<Seq<char>> {
        seq![
            "currency"@,
            "cash"@,
            "marketValue"@,
            "totalEquity"@,
            "buyingPower"@,
            "maintenanceExcess"@,
            "isRealTime"@,
        ]
    }

    open spec fn written(&self, members: Seq<(String, Json)>) -> bool {
        &&& members.len() == 7
        &&& is_label_json(members[0].1, self.currency.label())
        &&& members[1].1 == Json::Number(self.cash)
        &&& members[2].1 == Json::Number(self.market_value)
        &&& members[3].1 == Json::Number(self.total_equity)
        &&& members[4].1 == Json::Number(self.buying_power)
        &&& members[5].1 == Json::Number(self.maintenance_excess)
        &&& members[6].1 == Json::Bool(self.is_real_time)
    }

    proof fn lemma_round_trip(&self, j: Json) {
        self.currency.lemma_label_names();
        Self::lemma_members_found(j->Object_0@);
    }

    fn to_json(&self) -> (r: Option<Json>) {
        let mut members: Members = Vec::new();
        put(&mut members, "currency", named_json(&self.currency));
        put(&mut members, "cash", number_json(&self.cash));
        put(&mut members, "marketValue", number_json(&self.market_value));
        put(&mut members, "totalEquity", number_json(&self.total_equity));
        put(&mut members, "buyingPower", number_json(&self.buying_power));
        put(&mut members, "maintenanceExcess", number_json(&self.maintenance_excess));
        put(&mut members, "isRealTime", Json::Bool(self.is_real_time));
        let j = Json::Object(members);
        proof {
            assert(names_of(j->Object_0@) =~= Self::member_names());
            self.lemma_round_trip(j);
        }
        Some(j)
    }
}

/// Currency of an amount.
#[derive(Clone, Copy, Debug, PartialEq, Eq, Structural)]
pub enum Currency {
    CAD,
    USD,
}

impl Named for Currency {
    open spec fn kind() -> &'static str {
        "Currency"
    }

    open spec fn label(self) -> Seq<char> {
        match self {
            Currency::CAD => "CAD"@,
            Currency::USD => "USD"@,
        }
    }

    open spec fn named(text: Seq<char>) -> Option<Currency> {
        if text == "CAD"@ {
            Some(Currency::CAD)
        } else if text == "USD"@ {
            Some(Currency::USD)
        } else {
            None
        }
    }

    proof fn lemma_label_names(self) {
        reveal_strlit("CAD");
        reveal_strlit("USD");
        lemma_outline("CAD"@);
        lemma_outline("USD"@);
    }

    fn kind_name() -> (r: &'static str) {
        "Currency"
    }

    fn name(&self) -> (r: &'static str) {
        match self {
            Currency::CAD => "CAD",
            Currency::USD => "USD",
        }
    }

    fn from_name(text: &str) -> (r: Option<Currency>) {
        if same_text(text, "CAD") {
            Some(Currency::CAD)
        } else if same_text(text, "USD") {
            Some(Currency::USD)
        } else {
            None
        }
    }
}

/// Account balances: per currency and combined, now and at the start of the
/// day.
#[derive(Clone, Debug, PartialEq, Eq)]
pub struct AccountBalances {
    pub per_currency_balances: Vec<AccountBalance>,
    pub combined_balances: Vec<AccountBalance>,
    pub sod_per_currency_balances: Vec<AccountBalance>,
    pub sod_combined_balances: Vec<AccountBalance>,
}

/// The four lists of an [`AccountBalances`], as sequences.
pub struct AccountBalancesView {
    pub per_currency_balances: Seq<AccountBalance>,
    pub combined_balances: Seq<AccountBalance>,
    pub sod_per_currency_balances: Seq<AccountBalance>,
    pub sod_combined_balances: Seq<AccountBalance>,
}

impl View for AccountBalances {
    type V = AccountBalancesView;

    open spec fn view(&self) -> AccountBalancesView {
        AccountBalancesView {
            per_currency_balances: self.per_currency_balances@,
            combined_balances: self.combined_balances@,
            sod_per_currency_balances: self.sod_per_currency_balances@,
            sod_combined_balances: self.sod_combined_balances@,
        }
    }
}

impl AccountBalances {
    /// What `j` decodes to: the four lists in the order in which they were
    /// sent, or the first reason why there are none.
    pub open spec fn decoded(j: Json) -> Result<AccountBalancesView, ApiError> {
        match j {
            Json::Object(members) => {
                let m = members@;
                let per_currency_balances = list_from::<AccountBalance>(
                    lookup(m, "perCurrencyBalances"@),
                    "perCurrencyBalances",
                );
                let combined_balances = list_from::<AccountBalance>(
                    lookup(m, "combinedBalances"@),
                    "combinedBalances",
                );
                let sod_per_currency_balances = list_from::<AccountBalance>(
                    lookup(m, "sodPerCurrencyBalances"@),
                    "sodPerCurrencyBalances",
                );
                let sod_combined_balances = list_from::<AccountBalance>(
                    lookup(m, "sodCombinedBalances"@),
                    "sodCombinedBalances",
                );
                if per_currency_balances is Err {
                    Err(per_currency_balances->Err_0)
                } else if combined_balances is Err {
                    Err(combined_balances->Err_0)
                } else if sod_per_currency_balances is Err {
                    Err(sod_per_currency_balances->Err_0)
                } else if sod_combined_balances is Err {
                    Err(sod_combined_balances->Err_0)
                } else {
                    Ok(
                        AccountBalancesView {
                            per_currency_balances: per_currency_balances->Ok_0,
                            combined_balances: combined_balances->Ok_0,
                            sod_per_currency_balances: sod_per_currency_balances->Ok_0,
                            sod_combined_balances: sod_combined_balances->Ok_0,
                        },
                    )
                }
            },
            _ => Err(ApiError::InvalidTypeError("AccountBalances", "object")),
        }
    }

    /// Whether `r` holds exactly what `expected` says, failure included.
    pub open spec fn is(
        r: Result<AccountBalances, ApiError>,
        expected: Result<AccountBalancesView, ApiError>,
    ) -> bool {
        match expected {
            Ok(balances) => r is Ok && r->Ok_0@ == balances,
            Err(e) => r == Err::<AccountBalances, ApiError>(e),
        }
    }

    /// Decodes `j`.
    pub fn from_json(j: &Json) -> (r: Result<AccountBalances, ApiError>)
        ensures
            Self::is(r, Self::decoded(*j)),
    {
        match j {
            Json::Object(members) => {
                let per_currency_balances = read_list_member::<AccountBalance>(
                    find(members, "perCurrencyBalances"),
                    "perCurrencyBalances",
                )?;
                let combined_balances = read_list_member::<AccountBalance>(
                    find(members, "combinedBalances"),
                    "combinedBalances",
                )?;
                let sod_per_currency_balances = read_list_member::<AccountBalance>(
                    find(members, "sodPerCurrencyBalances"),
                    "sodPerCurrencyBalances",
                )?;
                let sod_combined_balances = read_list_member::<AccountBalance>(
                    find(members, "sodCombinedBalances"),
                    "sodCombinedBalances",
                )?;
                Ok(
                    AccountBalances {
                        per_currency_balances,
                        combined_balances,
                        sod_per_currency_balances,
                        sod_combined_balances,
                    },
                )
            },
            _ => Err(ApiError::InvalidTypeError("AccountBalances", "object")),
        }
    }

    /// Whether `self` has a JSON form: one that decodes to `self` again.
    pub open spec fn encodable(&self) -> bool {
        &&& all_encodable(self.per_currency_balances@)
        &&& all_encodable(self.combined_balances@)
        &&& all_encodable(self.sod_per_currency_balances@)
        &&& all_encodable(self.sod_combined_balances@)
    }

    /// The names of the members of the JSON form, in order.
    pub open spec fn member_names() -> Seq<Seq<char>> {
        seq![
            "perCurrencyBalances"@,
            "combinedBalances"@,
            "sodPerCurrencyBalances"@,
            "sodCombinedBalances"@,
        ]
    }

    /// Whether the values of `members`, one by one, are those of the JSON
    /// form of `self`: four arrays with the JSON forms of the balances.
    pub open spec fn written(&self, members: Seq<(String, Json)>) -> bool {
        &&& members.len() == 4
        &&& members[0].1 matches Json::Array(items) && are_json_forms(
            items@,
            self.per_currency_balances@,
        )
        &&& members[1].1 matches Json::Array(items) && are_json_forms(
            items@,
            self.combined_balances@,
        )
        &&& members[2].1 matches Json::Array(items) && are_json_forms(
            items@,
            self.sod_per_currency_balances@,
        )
        &&& members[3].1 matches Json::Array(items) && are_json_forms(
            items@,
            self.sod_combined_balances@,
        )
    }

    /// Writing and reading undo each other: an object with the names of
    /// `member_names` and the values that `written` gives for `self`
    /// decodes to the four lists of `self`.
    pub proof fn lemma_round_trip(&self, j: Json)
        requires
            j is Object,
            names_of(j->Object_0@) == Self::member_names(),
            self.written(j->Object_0@),
        ensures
            Self::decoded(j) == Ok::<AccountBalancesView, ApiError>(self@),
    {
        reveal_strlit("perCurrencyBalances");
        reveal_strlit("combinedBalances");
        reveal_strlit("sodPerCurrencyBalances");
        reveal_strlit("sodCombinedBalances");
        lemma_outline("perCurrencyBalances"@);
        lemma_outline("combinedBalances"@);
        lemma_outline("sodPerCurrencyBalances"@);
        lemma_outline("sodCombinedBalances"@);
        let members = j->Object_0@;
        let names = Self::member_names();
        assert forall|i: int, j: int|
            0 <= i < names.len() && 0 <= j < names.len() && i != j implies names[i]
            != names[j] by {}
        lemma_lookup_by_name(members, 0);
        lemma_lookup_by_name(members, 1);
        lemma_lookup_by_name(members, 2);
        lemma_lookup_by_name(members, 3);
        lemma_forms_decode(members[0].1->Array_0@, self.per_currency_balances@);
        lemma_forms_decode(members[1].1->Array_0@, self.combined_balances@);
        lemma_forms_decode(members[2].1->Array_0@, self.sod_per_currency_balances@);
        lemma_forms_decode(members[3].1->Array_0@, self.sod_combined_balances@);
    }

    /// Writes `self` as a JSON object; `None` where `self` has no JSON form.
    pub fn to_json(&self) -> (r: Option<Json>)
        ensures
            r is Some == self.encodable(),
            r matches Some(j) ==> {
                &&& j is Object
                &&& names_of(j->Object_0@) == Self::member_names()
                &&& self.written(j->Object_0@)
                &&& Self::decoded(j) == Ok::<AccountBalancesView, ApiError>(self@)
            },
    {
        let per_currency_balances = match write_list(&self.per_currency_balances) {
            Some(items) => items,
            None => {
                return None;
            },
        };
        let combined_balances = match write_list(&self.combined_balances) {
            Some(items) => items,
            None => {
                return None;
            },
        };
        let sod_per_currency_balances = match write_list(&self.sod_per_currency_balances) {
            Some(items) => items,
            None => {
                return None;
            },
        };
        let sod_combined_balances = match write_list(&self.sod_combined_balances) {
            Some(items) => items,
            None => {
                return None;
            },
        };
        let mut members: Members = Vec::new();
        put(&mut members, "perCurrencyBalances", Json::Array(per_currency_balances));
        put(&mut members, "combinedBalances", Json::Array(combined_balances));
        put(&mut members, "sodPerCurrencyBalances", Json::Array(sod_per_currency_balances));
        put(&mut members, "sodCombinedBalances", Json::Array(sod_combined_balances));
        let j = Json::Object(members);
        proof {
            assert(names_of(j->Object_0@) =~= Self::member_names());
            self.lemma_round_trip(j);
        }
        Some(j)
    }
}


/// Account Position.
#[derive(Clone, Debug, PartialEq, Eq)]
pub struct AccountPosition {
    /// Symbol that follows Questrade symbology (e.g., "TD.TO").
    pub symbol: String,
    /// Internal symbol identifier.
    pub symbol_id: u32,
    /// Position quantity remaining open.
    pub open_quantity: Number,
    /// Portion of the position that was closed today.
    pub closed_quantity: Number,
    /// Market value of the position (quantity x price).
    pub current_market_value: Number,
    /// Current price of the position symbol.
    pub current_price: Number,
    /// Average price paid for all executions constituting the position.
    pub average_entry_price: Number,
    /// Realized profit/loss on this position.
    pub closed_profit_and_loss: Number,
    /// Unrealized profit/loss on this position.
    pub open_profit_and_loss: Number,
    /// Total cost of the position.
    pub total_cost: Number,
    /// Designates whether real-time quote was used to compute PnL.
    pub is_real_time: bool,
    /// Designates whether a symbol is currently undergoing a reorg.
    pub is_under_reorg: bool,
}

impl FromJson for AccountPosition {
    open spec fn wf(&self) -> bool {
        true
    }

    open spec fn decoded(j: Json) -> Result<AccountPosition, ApiError> {
        match j {
            Json::Object(members) => {
                let m = members@;
                let symbol = string_from(lookup(m, "symbol"@), "symbol");
                let symbol_id = u32_from(lookup(m, "symbolId"@), "symbolId");
                let open_quantity = number_from(lookup(m, "openQuantity"@), "openQuantity");
                let closed_quantity = number_from(lookup(m, "closedQuantity"@), "closedQuantity");
                let current_market_value = number_from(
                    lookup(m, "currentMarketValue"@),
                    "currentMarketValue",
                );
                let current_price = number_from(lookup(m, "currentPrice"@), "currentPrice");
                let average_entry_price = number_from(
                    lookup(m, "averageEntryPrice"@),
                    "averageEntryPrice",
                );
                let closed_profit_and_loss = number_from(lookup(m, "closedPnl"@), "closedPnl");
                let open_profit_and_loss = number_from(lookup(m, "openPnl"@), "openPnl");
                let total_cost = number_from(lookup(m, "totalCost"@), "totalCost");
                let is_real_time = bool_from(lookup(m, "isRealTime"@), "isRealTime");
                let is_under_reorg = bool_from(lookup(m, "isUnderReorg"@), "isUnderReorg");
                if symbol is Err {
                    Err(symbol->Err_0)
                } else if symbol_id is Err {
                    Err(symbol_id->Err_0)
                } else if open_quantity is Err {
                    Err(open_quantity->Err_0)
                } else if closed_quantity is Err {
                    Err(closed_quantity->Err_0)
                } else if current_market_value is Err {
                    Err(current_market_value->Err_0)
                } else if current_price is Err {
                    Err(current_price->Err_0)
                } else if average_entry_price is Err {
                    Err(average_entry_price->Err_0)
                } else if closed_profit_and_loss is Err {
                    Err(closed_profit_and_loss->Err_0)
                } else if open_profit_and_loss is Err {
                    Err(open_profit_and_loss->Err_0)
                } else if total_cost is Err {
                    Err(total_cost->Err_0)
                } else if is_real_time is Err {
                    Err(is_real_time->Err_0)
                } else if is_under_reorg is Err {
                    Err(is_under_reorg->Err_0)
                } else {
                    Ok(AccountPosition {
                        symbol: symbol->Ok_0,
                        symbol_id: symbol_id->Ok_0,
                        open_quantity: open_quantity->Ok_0,
                        closed_quantity: closed_quantity->Ok_0,
                        current_market_value: current_market_value->Ok_0,
                        current_price: current_price->Ok_0,
                        average_entry_price: average_entry_price->Ok_0,
                        closed_profit_and_loss: closed_profit_and_loss->Ok_0,
                        open_profit_and_loss: open_profit_and_loss->Ok_0,
                        total_cost: total_cost->Ok_0,
                        is_real_time: is_real_time->Ok_0,
                        is_under_reorg: is_under_reorg->Ok_0,
                    })
                }
            },
            _ => Err(ApiError::InvalidTypeError("AccountPosition", "object")),
        }
    }

    fn from_json(j: &Json) -> (r: Result<AccountPosition, ApiError>) {
        match j {
            Json::Object(members) => {
                let symbol = read_string(find(members, "symbol"), "symbol")?;
                let symbol_id = read_u32(find(members, "symbolId"), "symbolId")?;
                let open_quantity = read_number(find(members, "openQuantity"), "openQuantity")?;
                let closed_quantity = read_number(
                    find(members, "closedQuantity"),
                    "closedQuantity",
                )?;
                let current_market_value = read_number(
                    find(members, "currentMarketValue"),
                    "currentMarketValue",
                )?;
                let current_price = read_number(find(members, "currentPrice"), "currentPrice")?;
                let average_entry_price = read_number(
                    find(members, "averageEntryPrice"),
                    "averageEntryPrice",
                )?;
                let closed_profit_and_loss = read_number(find(members, "closedPnl"), "closedPnl")?;
                let open_profit_and_loss = read_number(find(members, "openPnl"), "openPnl")?;
                let total_cost = read_number(find(members, "totalCost"), "totalCost")?;
                let is_real_time = read_bool(find(members, "isRealTime"), "isRealTime")?;
                let is_under_reorg = read_bool(find(members, "isUnderReorg"), "isUnderReorg")?;
                Ok(AccountPosition {
                    symbol,
                    symbol_id,
                    open_quantity,
                    closed_quantity,
                    current_market_value,
                    current_price,
                    average_entry_price,
                    closed_profit_and_loss,
                    open_profit_and_loss,
                    total_cost,
                    is_real_time,
                    is_under_reorg,
                })
            },
            _ => Err(ApiError::InvalidTypeError("AccountPosition", "object")),
        }
    }
}

impl AccountPosition {
    /// In an object with the member names of the JSON form, each name finds the
    /// member at its own place: no two of the names are the same.
    pub proof fn lemma_members_found(members: Seq<(String, Json)>)
        requires
            names_of(members) == Self::member_names(),
        ensures
            lookup(members, "symbol"@) == Some(members[0].1),
            lookup(members, "symbolId"@) == Some(members[1].1),
            lookup(members, "openQuantity"@) == Some(members[2].1),
            lookup(members, "closedQuantity"@) == Some(members[3].1),
            lookup(members, "currentMarketValue"@) == Some(members[4].1),
            lookup(members, "currentPrice"@) == Some(members[5].1),
            lookup(members, "averageEntryPrice"@) == Some(members[6].1),
            lookup(members, "closedPnl"@) == Some(members[7].1),
            lookup(members, "openPnl"@) == Some(members[8].1),
            lookup(members, "totalCost"@) == Some(members[9].1),
            lookup(members, "isRealTime"@) == Some(members[10].1),
            lookup(members, "isUnderReorg"@) == Some(members[11].1),
    {
        reveal_strlit("symbol");
        reveal_strlit("symbolId");
        reveal_strlit("openQuantity");
        reveal_strlit("closedQuantity");
        reveal_strlit("currentMarketValue");
        reveal_strlit("currentPrice");
        reveal_strlit("averageEntryPrice");
        reveal_strlit("closedPnl");
        reveal_strlit("openPnl");
        reveal_strlit("totalCost");
        reveal_strlit("isRealTime");
        reveal_strlit("isUnderReorg");
        lemma_outline("symbol"@);
        lemma_outline("symbolId"@);
        lemma_outline("openQuantity"@);
        lemma_outline("closedQuantity"@);
        lemma_outline("currentMarketValue"@);
        lemma_outline("currentPrice"@);
        lemma_outline("averageEntryPrice"@);
        lemma_outline("closedPnl"@);
        lemma_outline("openPnl"@);
        lemma_outline("totalCost"@);
        lemma_outline("isRealTime"@);
        lemma_outline("isUnderReorg"@);
        let names = Self::member_names();
        assert forall|i: int, j: int|
            0 <= i < names.len() && 0 <= j < names.len() && i != j implies names[i]
            != names[j] by {}
        lemma_lookup_by_name(members, 0);
        lemma_lookup_by_name(members, 1);
        lemma_lookup_by_name(members, 2);
        lemma_lookup_by_name(members, 3);
        lemma_lookup_by_name(members, 4);
        lemma_lookup_by_name(members, 5);
        lemma_lookup_by_name(members, 6);
        lemma_lookup_by_name(members, 7);
        lemma_lookup_by_name(members, 8);
        lemma_lookup_by_name(members, 9);
        lemma_lookup_by_name(members, 10);
        lemma_lookup_by_name(members, 11);
    }
}

impl ToJson for AccountPosition {
    open spec fn encodable(&self) -> bool {
        &&& self.wf()
    }

    open spec fn member_names() -> Seq<Seq<char>> {
        seq![
            "symbol"@,
            "symbolId"@,
            "openQuantity"@,
            "closedQuantity"@,
            "currentMarketValue"@,
            "currentPrice"@,
            "averageEntryPrice"@,
            "closedPnl"@,
            "openPnl"@,
            "totalCost"@,
            "isRealTime"@,
            "isUnderReorg"@,
        ]
    }

    open spec fn written(&self, members: Seq<(String, Json)>) -> bool {
        &&& members.len() == 12
        &&& members[0].1 == Json::String(self.symbol)
        &&& members[1].1 == whole_number(self.symbol_id)
        &&& members[2].1 == Json::Number(self.open_quantity)
        &&& members[3].1 == Json::Number(self.closed_quantity)
        &&& members[4].1 == Json::Number(self.current_market_value)
        &&& members[5].1 == Json::Number(self.current_price)
        &&& members[6].1 == Json::Number(self.average_entry_price)
        &&& members[7].1 == Json::Number(self.closed_profit_and_loss)
        &&& members[8].1 == Json::Number(self.open_profit_and_loss)
        &&& members[9].1 == Json::Number(self.total_cost)
        &&& members[10].1 == Json::Bool(self.is_real_time)
        &&& members[11].1 == Json::Bool(self.is_under_reorg)
    }

    proof fn lemma_round_trip(&self, j: Json) {
        Self::lemma_members_found(j->Object_0@);
    }

    fn to_json(&self) -> (r: Option<Json>) {
        let mut members: Members = Vec::new();
        put(&mut members, "symbol", text_json(&self.symbol));
        put(&mut members, "symbolId", u32_json(self.symbol_id));
        put(&mut members, "openQuantity", number_json(&self.open_quantity));
        put(&mut members, "closedQuantity", number_json(&self.closed_quantity));
        put(&mut members, "currentMarketValue", number_json(&self.current_market_value));
        put(&mut members, "currentPrice", number_json(&self.current_price));
        put(&mut members, "averageEntryPrice", number_json(&self.average_entry_price));
        put(&mut members, "closedPnl", number_json(&self.closed_profit_and_loss));
        put(&mut members, "openPnl", number_json(&self.open_profit_and_loss));
        put(&mut members, "totalCost", number_json(&self.total_cost));
        put(&mut members, "isRealTime", Json::Bool(self.is_real_time));
        put(&mut members, "isUnderReorg", Json::Bool(self.is_under_reorg));
        let j = Json::Object(members);
        proof {
            assert(names_of(j->Object_0@) =~= Self::member_names());
            self.lemma_round_trip(j);
        }
        Some(j)
    }
}

} // verus!
