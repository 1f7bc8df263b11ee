//! User and account models.
use vstd::prelude::*;
use crate::codec::{
    expect_object, lemma_lookup_optional_member, optional, optional_member, optional_spec,
    push_member, push_optional, required, required_spec, FromJson, ToJson,
};
use crate::json::{lemma_lookup_append, lemma_lookup_single, members_view, JsonV, JsonValue};

verus! {

/// A user in the Beeper system.  Only `id` is required.
#[derive(Debug, Clone)]
pub struct User {
    /// User ID
    pub id: String,
    /// Human-readable handle
    pub username: Option<String>,
    /// User's phone number in E.164 format
    pub phone_number: Option<String>,
    /// User's email address
    pub email: Option<String>,
    /// Display name
    pub full_name: Option<String>,
    /// Avatar image URL
    pub img_url: Option<String>,
    /// True if Beeper cannot initiate messages to this user
    pub cannot_message: Option<bool>,
    /// True if this is the current user
    pub is_self: Option<bool>,
}

pub struct UserV {
    pub id: Seq<char>,
    pub username: Option<Seq<char>>,
    pub phone_number: Option<Seq<char>>,
    pub email: Option<Seq<char>>,
    pub full_name: Option<Seq<char>>,
    pub img_url: Option<Seq<char>>,
    pub cannot_message: Option<bool>,
    pub is_self: Option<bool>,
}

impl DeepView for User {
    type V = UserV;

    open spec fn deep_view(&self) -> UserV {
        UserV {
            id: self.id@,
            username: self.username.deep_view(),
            phone_number: self.phone_number.deep_view(),
            email: self.email.deep_view(),
            full_name: self.full_name.deep_view(),
            img_url: self.img_url.deep_view(),
            cannot_message: self.cannot_message.deep_view(),
            is_self: self.is_self.deep_view(),
        }
    }
}

impl FromJson for User {
    open spec fn decode(j: JsonV) -> Option<UserV> {
        let id = required_spec::<String>(j, "id"@);
        let username = optional_spec::<String>(j, "username"@);
        let phone_number = optional_spec::<String>(j, "phoneNumber"@);
        let email = optional_spec::<String>(j, "email"@);
        let full_name = optional_spec::<String>(j, "fullName"@);
        let img_url = optional_spec::<String>(j, "imgURL"@);
        let cannot_message = optional_spec::<bool>(j, "cannotMessage"@);
        let is_self = optional_spec::<bool>(j, "isSelf"@);
        if j is Object && id is Some && username is Some && phone_number is Some && email is Some
            && full_name is Some && img_url is Some && cannot_message is Some && is_self is Some {
            Some(
                UserV {
                    id: id->Some_0,
                    username: username->Some_0,
                    phone_number: phone_number->Some_0,
                    email: email->Some_0,
                    full_name: full_name->Some_0,
                    img_url: img_url->Some_0,
                    cannot_message: cannot_message->Some_0,
                    is_self: is_self->Some_0,
                },
            )
        } else {
            None
        }
    }

    fn from_json(j: &JsonValue) -> (r: Result<User, String>) {
        expect_object(j)?;
        let id = required::<String>(j, "id")?;
        let username = optional::<String>(j, "username")?;
        let phone_number = optional::<String>(j, "phoneNumber")?;
        let email = optional::<String>(j, "email")?;
        let full_name = optional::<String>(j, "fullName")?;
        let img_url = optional::<String>(j, "imgURL")?;
        let cannot_message = optional::<bool>(j, "cannotMessage")?;
        let is_self = optional::<bool>(j, "isSelf")?;
        Ok(User { id, username, phone_number, email, full_name, img_url, cannot_message, is_self })
    }
}

impl ToJson for User {
    open spec fn encode(v: UserV) -> JsonV {
        JsonV::Object(
            seq![("id"@, String::encode(v.id))]
                + optional_member::<String>("username"@, v.username)
                + optional_member::<String>("phoneNumber"@, v.phone_number)
                + optional_member::<String>("email"@, v.email)
                + optional_member::<String>("fullName"@, v.full_name)
                + optional_member::<String>("imgURL"@, v.img_url)
                + optional_member::<bool>("cannotMessage"@, v.cannot_message)
                + optional_member::<bool>("isSelf"@, v.is_self),
        )
    }

    fn to_json(&self) -> (r: JsonValue) {
        let mut m: Vec<(String, JsonValue)> = Vec::new();
        push_member(&mut m, "id", &self.id);
        assert(members_view(Seq::<(String, JsonValue)>::empty()) =~= Seq::empty());
        assert(members_view(m@) =~= seq![("id"@, String::encode(self.id.deep_view()))]);
        push_optional(&mut m, "username", &self.username);
        push_optional(&mut m, "phoneNumber", &self.phone_number);
        push_optional(&mut m, "email", &self.email);
        push_optional(&mut m, "fullName", &self.full_name);
        push_optional(&mut m, "imgURL", &self.img_url);
        push_optional(&mut m, "cannotMessage", &self.cannot_message);
        push_optional(&mut m, "isSelf", &self.is_self);
        JsonValue::Object(m)
    }
}

/// Encoding a user and decoding the result gives the user back; absent
/// fields stay absent.
pub proof fn lemma_user_round_trip(v: UserV)
    ensures
        User::decode(User::encode(v)) == Some(v),
{
    broadcast use lemma_lookup_append, lemma_lookup_single, lemma_lookup_optional_member;

    reveal_strlit("id");
    reveal_strlit("username");
    reveal_strlit("phoneNumber");
    reveal_strlit("email");
    reveal_strlit("fullName");
    reveal_strlit("imgURL");
    reveal_strlit("cannotMessage");
    reveal_strlit("isSelf");
    assert("id"@.len() == 2
        && "username"@.len() == 8
        && "phoneNumber"@.len() == 11
        && "email"@.len() == 5
        && "fullName"@.len() == 8
        && "imgURL"@.len() == 6
        && "cannotMessage"@.len() == 13
        && "isSelf"@.len() == 6);
    assert("username"@[0] != "fullName"@[0]
        && "imgURL"@[1] != "isSelf"@[1]);
    let j = User::encode(v);
    assert(required_spec::<String>(j, "id"@) == Some(v.id));
    assert(optional_spec::<String>(j, "username"@) == Some(v.username));
    assert(optional_spec::<String>(j, "phoneNumber"@) == Some(v.phone_number));
    assert(optional_spec::<String>(j, "email"@) == Some(v.email));
    assert(optional_spec::<String>(j, "fullName"@) == Some(v.full_name));
    assert(optional_spec::<String>(j, "imgURL"@) == Some(v.img_url));
    assert(optional_spec::<bool>(j, "cannotMessage"@) == Some(v.cannot_message));
    assert(optional_spec::<bool>(j, "isSelf"@) == Some(v.is_self));
}

/// A chat account connected to Beeper: one network identity.
#[derive(Debug, Clone)]
pub struct Account {
    /// Chat account ID
    pub account_id: String,
    /// Network type, a free-text label such as "whatsapp"
    pub network: String,
    /// User associated with this account
    pub user: User,
}

pub struct AccountV {
    pub account_id: Seq<char>,
    pub network: Seq<char>,
    pub user: UserV,
}

impl DeepView for Account {
    type V = AccountV;

    open spec fn deep_view(&self) -> AccountV {
        AccountV {
            account_id: self.account_id@,
            network: self.network@,
            user: self.user.deep_view(),
        }
    }
}

impl FromJson for Account {
    open spec fn decode(j: JsonV) -> Option<AccountV> {
        let account_id = required_spec::<String>(j, "accountID"@);
        let network = required_spec::<String>(j, "network"@);
        let user = required_spec::<User>(j, "user"@);
        if j is Object && account_id is Some && network is Some && user is Some {
            Some(
                AccountV {
                    account_id: account_id->Some_0,
                    network: network->Some_0,
                    user: user->Some_0,
                },
            )
        } else {
            None
        }
    }

    fn from_json(j: &JsonValue) -> (r: Result<Account, String>) {
        expect_object(j)?;
        let account_id = required::<String>(j, "accountID")?;
        let network = required::<String>(j, "network")?;
        let user = required::<User>(j, "user")?;
        Ok(Account { account_id, network, user })
    }
}

impl ToJson for Account {
    open spec fn encode(v: AccountV) -> JsonV {
        JsonV::Object(
            seq![("accountID"@, String::encode(v.account_id))]
                + seq![("network"@, String::encode(v.network))]
                + seq![("user"@, User::encode(v.user))],
        )
    }

    fn to_json(&self) -> (r: JsonValue) {
        let mut m: Vec<(String, JsonValue)> = Vec::new();
        push_member(&mut m, "accountID", &self.account_id);
        assert(members_view(Seq::<(String, JsonValue)>::empty()) =~= Seq::empty());
        assert(members_view(m@) =~= seq![("accountID"@, String::encode(self.account_id.deep_view()))]);
        push_member(&mut m, "network", &self.network);
        push_member(&mut m, "user", &self.user);
        JsonValue::Object(m)
    }
}

/// Encoding an account and decoding the result gives the account back.
pub proof fn lemma_account_round_trip(v: AccountV)
    ensures
        Account::decode(Account::encode(v)) == Some(v),
{
    broadcast use lemma_lookup_append, lemma_lookup_single, lemma_lookup_optional_member;

    reveal_strlit("accountID");
    reveal_strlit("network");
    reveal_strlit("user");
    assert("accountID"@.len() == 9
        && "network"@.len() == 7
        && "user"@.len() == 4);
    lemma_user_round_trip(v.user);
}

/// Output for listing the connected accounts.
pub type GetAccountsOutput = Vec<Account>;

} // verus!
