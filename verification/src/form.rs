//! The login form: thirteen fields under fixed, case-sensitive keys.

use vstd::prelude::*;
use crate::digest::{credential_digest, credential_digest_of, username_digest, username_digest_of};

verus! {

/// The field that the verification-code endpoint is sent.
pub open spec fn code_fields(webfinger: Seq<char>) -> Seq<(Seq<char>, Seq<char>)> {
    seq![("webfinger"@, webfinger)]
}

/// The fields of the login form, in the order in which they are sent: five
/// that the portal expects empty, the selector of the student login path, the
/// plain credentials, the session identifier, the anti-forgery token, the
/// verification code and the two credential digests.
pub open spec fn login_fields(
    username: Seq<char>,
    password: Seq<char>,
    webfinger: Seq<char>,
    token: Seq<char>,
    code: Seq<char>,
) -> Seq<(Seq<char>, Seq<char>)> {
    seq![
        ("MsgID"@, Seq::empty()),
        ("KeyID"@, Seq::empty()),
        ("UserName"@, Seq::empty()),
        ("Password"@, Seq::empty()),
        ("return_EncData"@, Seq::empty()),
        ("type"@, "xs"@),
        ("userName"@, username),
        ("password"@, password),
        ("webfinger"@, webfinger),
        ("rnd"@, token),
        ("code"@, code),
        ("userName1"@, username_digest_of(username)),
        ("password1"@, credential_digest_of(username, password)),
    ]
}

/// The value that a form holds under `key`: that of the first field so named.
pub open spec fn field(form: Seq<(Seq<char>, Seq<char>)>, key: Seq<char>) -> Option<Seq<char>>
    decreases form.len(),
{
    if form.len() == 0 {
        None
    } else if form[0].0 == key {
        Some(form[0].1)
    } else {
        field(form.drop_first(), key)
    }
}

/// A field, from its key and its value.
pub(crate) fn pair(key: &str, value: String) -> (p: (String, String))
    ensures
        p.deep_view() == (key@, value@),
{
    (key.to_owned(), value)
}

/// Builds the one-field form of the verification-code request.
pub fn code_form(webfinger: &str) -> (form: Vec<(String, String)>)
    ensures
        form.deep_view() == code_fields(webfinger@),
{
    let mut form: Vec<(String, String)> = Vec::new();
    form.push(pair("webfinger", webfinger.to_owned()));
    assert(form.deep_view() =~= code_fields(webfinger@));
    form
}

/// Builds the login form from the credentials and the three values gathered
/// during the handshake, computing both digests.
pub fn login_form(username: &str, password: &str, webfinger: &str, token: &str, code: &str) -> (form:
    Vec<(String, String)>)
    ensures
        form.deep_view() == login_fields(username@, password@, webfinger@, token@, code@),
{
    let mut form: Vec<(String, String)> = Vec::new();
    form.push(pair("MsgID", String::new()));
    form.push(pair("KeyID", String::new()));
    form.push(pair("UserName", String::new()));
    form.push(pair("Password", String::new()));
    form.push(pair("return_EncData", String::new()));
    form.push(pair("type", "xs".to_owned()));
    form.push(pair("userName", username.to_owned()));
    form.push(pair("password", password.to_owned()));
    form.push(pair("webfinger", webfinger.to_owned()));
    form.push(pair("rnd", token.to_owned()));
    form.push(pair("code", code.to_owned()));
    form.push(pair("userName1", username_digest(username)));
    form.push(pair("password1", credential_digest(username, password)));
    assert(form.deep_view() =~= login_fields(username@, password@, webfinger@, token@, code@));
    form
}

/// The thirteen keys are pairwise distinct.
pub proof fn lemma_login_keys_distinct(
    username: Seq<char>,
    password: Seq<char>,
    webfinger: Seq<char>,
    token: Seq<char>,
    code: Seq<char>,
)
    ensures
        ({
            let form = login_fields(username, password, webfinger, token, code);
            &&& form.len() == 13
            &&& forall|i: int, j: int| 0 <= i < j < 13 ==> form[i].0 != form[j].0
        }),
{
    reveal_key_literals();
    let form = login_fields(username, password, webfinger, token, code);
    assert forall|i: int, j: int| 0 <= i < j < 13 implies form[i].0 != form[j].0 by {
        if form[i].0.len() == form[j].0.len() {
            assert(form[i].0[0] != form[j].0[0] || form[i].0[1] != form[j].0[1]
                || form[i].0.last() != form[j].0.last());
        }
    }
}

/// What the login form holds under each of its keys.
pub proof fn lemma_login_fields_by_key(
    username: Seq<char>,
    password: Seq<char>,
    webfinger: Seq<char>,
    token: Seq<char>,
    code: Seq<char>,
)
    ensures
        ({
            let form = login_fields(username, password, webfinger, token, code);
            &&& field(form, "MsgID"@) == Some(Seq::<char>::empty())
            &&& field(form, "KeyID"@) == Some(Seq::<char>::empty())
            &&& field(form, "UserName"@) == Some(Seq::<char>::empty())
            &&& field(form, "Password"@) == Some(Seq::<char>::empty())
            &&& field(form, "return_EncData"@) == Some(Seq::<char>::empty())
            &&& field(form, "type"@) == Some("xs"@)
            &&& field(form, "userName"@) == Some(username)
            &&& field(form, "password"@) == Some(password)
            &&& field(form, "webfinger"@) == Some(webfinger)
            &&& field(form, "rnd"@) == Some(token)
            &&& field(form, "code"@) == Some(code)
            &&& field(form, "userName1"@) == Some(username_digest_of(username))
            &&& field(form, "password1"@) == Some(credential_digest_of(username, password))
        }),
{
    let form = login_fields(username, password, webfinger, token, code);
    lemma_login_keys_distinct(username, password, webfinger, token, code);
    assert forall|i: int| 0 <= i < 13 implies field(form, #[trigger] form[i].0) == Some(
        form[i].1,
    ) by {
        lemma_field_of_distinct(form, i);
    }
    assert(form[0].0 == "MsgID"@);
    assert(form[1].0 == "KeyID"@);
    assert(form[2].0 == "UserName"@);
    assert(form[3].0 == "Password"@);
    assert(form[4].0 == "return_EncData"@);
    assert(form[5].0 == "type"@);
    assert(form[6].0 == "userName"@);
    assert(form[7].0 == "password"@);
    assert(form[8].0 == "webfinger"@);
    assert(form[9].0 == "rnd"@);
    assert(form[10].0 == "code"@);
    assert(form[11].0 == "userName1"@);
    assert(form[12].0 == "password1"@);
}

/// In the login form, the account-name digest is settled by the account name
/// and the credential digest by the account name and the password: neither
/// moves with the identifier, the token or the code, nor the first with the
/// password.
pub proof fn lemma_digest_fields_follow_credentials(
    username: Seq<char>,
    password: Seq<char>,
    other_password: Seq<char>,
    webfinger: Seq<char>,
    token: Seq<char>,
    code: Seq<char>,
    other_webfinger: Seq<char>,
    other_token: Seq<char>,
    other_code: Seq<char>,
)
    ensures
        field(login_fields(username, password, webfinger, token, code), "userName1"@) == field(
            login_fields(username, other_password, other_webfinger, other_token, other_code),
            "userName1"@,
        ),
        field(login_fields(username, password, webfinger, token, code), "password1"@) == field(
            login_fields(username, password, other_webfinger, other_token, other_code),
            "password1"@,
        ),
{
    lemma_login_fields_by_key(username, password, webfinger, token, code);
    lemma_login_fields_by_key(username, other_password, other_webfinger, other_token, other_code);
    lemma_login_fields_by_key(username, password, other_webfinger, other_token, other_code);
}

/// In a form, a field that no earlier field shares its key with is the one
/// found under that key.
pub proof fn lemma_field_of_distinct(form: Seq<(Seq<char>, Seq<char>)>, i: int)
    requires
        0 <= i < form.len(),
        forall|j: int| 0 <= j < i ==> (#[trigger] form[j]).0 != form[i].0,
    ensures
        field(form, form[i].0) == Some(form[i].1),
    decreases i,
{
    if i > 0 {
        let rest = form.drop_first();
        assert(rest[i - 1] == form[i]);
        assert forall|j: int| 0 <= j < i - 1 implies (#[trigger] rest[j]).0 != rest[i - 1].0 by {
            assert(rest[j] == form[j + 1]);
        }
        lemma_field_of_distinct(rest, i - 1);
    }
}

proof fn reveal_key_literals()
    ensures
        "MsgID"@ == seq!['M', 's', 'g', 'I', 'D'],
        "KeyID"@ == seq!['K', 'e', 'y', 'I', 'D'],
        "UserName"@ == seq!['U', 's', 'e', 'r', 'N', 'a', 'm', 'e'],
        "Password"@ == seq!['P', 'a', 's', 's', 'w', 'o', 'r', 'd'],
        "return_EncData"@.len() == 14,
        "type"@ == seq!['t', 'y', 'p', 'e'],
        "userName"@ == seq!['u', 's', 'e', 'r', 'N', 'a', 'm', 'e'],
        "password"@ == seq!['p', 'a', 's', 's', 'w', 'o', 'r', 'd'],
        "webfinger"@ == seq!['w', 'e', 'b', 'f', 'i', 'n', 'g', 'e', 'r'],
        "rnd"@ == seq!['r', 'n', 'd'],
        "code"@ == seq!['c', 'o', 'd', 'e'],
        "userName1"@ == seq!['u', 's', 'e', 'r', 'N', 'a', 'm', 'e', '1'],
        "password1"@ == seq!['p', 'a', 's', 's', 'w', 'o', 'r', 'd', '1'],
{
    reveal_strlit("MsgID");
    reveal_strlit("KeyID");
    reveal_strlit("UserName");
    reveal_strlit("Password");
    reveal_strlit("return_EncData");
    reveal_strlit("type");
    reveal_strlit("userName");
    reveal_strlit("password");
    reveal_strlit("webfinger");
    reveal_strlit("rnd");
    reveal_strlit("code");
    reveal_strlit("userName1");
    reveal_strlit("password1");
    assert("MsgID"@ =~= seq!['M', 's', 'g', 'I', 'D']);
    assert("KeyID"@ =~= seq!['K', 'e', 'y', 'I', 'D']);
    assert("UserName"@ =~= seq!['U', 's', 'e', 'r', 'N', 'a', 'm', 'e']);
    assert("Password"@ =~= seq!['P', 'a', 's', 's', 'w', 'o', 'r', 'd']);
    assert("type"@ =~= seq!['t', 'y', 'p', 'e']);
    assert("userName"@ =~= seq!['u', 's', 'e', 'r', 'N', 'a', 'm', 'e']);
    assert("password"@ =~= seq!['p', 'a', 's', 's', 'w', 'o', 'r', 'd']);
    assert("webfinger"@ =~= seq!['w', 'e', 'b', 'f', 'i', 'n', 'g', 'e', 'r']);
    assert("rnd"@ =~= seq!['r', 'n', 'd']);
    assert("code"@ =~= seq!['c', 'o', 'd', 'e']);
    assert("userName1"@ =~= seq!['u', 's', 'e', 'r', 'N', 'a', 'm', 'e', '1']);
    assert("password1"@ =~= seq!['p', 'a', 's', 's', 'w', 'o', 'r', 'd', '1']);
}

} // verus!
