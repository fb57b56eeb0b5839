//! Credential resolution: merges values from an INI-style configuration text
//! with command-line overrides, command line winning field by field.

use vstd::prelude::*;

verus! {

/// Resolved credentials: a non-optional user/password pair plus the flag that
/// confirms disconnecting other devices.
#[derive(Debug)]
pub struct Values {
    pub user: String,
    pub pass: String,
    pub force: bool,
}

impl Values {
    /// The resolved user name.
    pub fn get_user(&self) -> (r: &str)
        ensures
            r@ == self.user@,
    {
        self.user.as_str()
    }

    /// The resolved password.
    pub fn get_pass(&self) -> (r: &str)
        ensures
            r@ == self.pass@,
    {
        self.pass.as_str()
    }

    /// Whether other connections of the same account are to be disconnected.
    pub fn get_force(&self) -> (r: bool)
        ensures
            r == self.force,
    {
        self.force
    }
}

/// A later value overrides an earlier one: the override wins where present.
pub open spec fn merged(base: Option<Seq<char>>, over: Option<Seq<char>>) -> Option<Seq<char>> {
    if over is Some {
        over
    } else {
        base
    }
}

/// A field counts as supplied only when it is present and non-empty: an
/// empty user name or password is as good as none.
pub open spec fn supplied(v: Option<Seq<char>>) -> bool {
    match v {
        Option::Some(s) => s.len() > 0,
        Option::None => false,
    }
}

/// The error text reported when no user name was supplied.
pub open spec fn missing_user_msg() -> Seq<char> {
    "Missing user name. Aborting."@
}

/// The error text reported when no password was supplied.
pub open spec fn missing_pass_msg() -> Seq<char> {
    "Missing password. Aborting."@
}

/// What credential resolution yields from the file-supplied and the
/// command-line-supplied user and password: the command line wins field by
/// field, and a field still empty or absent after the merge is an error, the
/// user checked first.
pub open spec fn resolution(
    file_user: Option<Seq<char>>,
    file_pass: Option<Seq<char>>,
    cli_user: Option<Seq<char>>,
    cli_pass: Option<Seq<char>>,
) -> Result<(Seq<char>, Seq<char>), Seq<char>> {
    if !supplied(merged(file_user, cli_user)) {
        Result::Err(missing_user_msg())
    } else if !supplied(merged(file_pass, cli_pass)) {
        Result::Err(missing_pass_msg())
    } else {
        Result::Ok((merged(file_user, cli_user).unwrap(), merged(file_pass, cli_pass).unwrap()))
    }
}

/// The section/key-to-value entries of a parsed configuration document.
pub uninterp spec fn ini_entries(doc: tini::Ini) -> Map<(Seq<char>, Seq<char>), Seq<char>>;

/// The entries an INI text parses to, or `None` where the text is malformed.
pub uninterp spec fn ini_entries_of(text: Seq<char>) -> Option<
    Map<(Seq<char>, Seq<char>), Seq<char>>,
>;

#[verifier::external_type_specification]
#[verifier::external_body]
pub struct ExIni(tini::Ini);

/// The raw value of `key` in `section`, if the document has one.
pub open spec fn str_entry(
    m: Map<(Seq<char>, Seq<char>), Seq<char>>,
    section: Seq<char>,
    key: Seq<char>,
) -> Option<Seq<char>> {
    if m.contains_key((section, key)) {
        Some(m[(section, key)])
    } else {
        None
    }
}

/// The value of `key` in `section` read as a boolean: present and literally
/// `true` or `false`, anything else being absence.
pub open spec fn bool_entry(
    m: Map<(Seq<char>, Seq<char>), Seq<char>>,
    section: Seq<char>,
    key: Seq<char>,
) -> Option<bool> {
    match str_entry(m, section, key) {
        Option::Some(v) => if v == "true"@ {
            Some(true)
        } else if v == "false"@ {
            Some(false)
        } else {
            None
        },
        Option::None => None,
    }
}

/// Relies on `tini::Ini::from_string`: parses INI text into a document; the
/// outcome depends on the text alone. The error is reported as its text.
#[verifier::external_body]
fn ini_parse(text: &str) -> (r: Result<tini::Ini, String>)
    ensures
        match r {
            Result::Ok(doc) => ini_entries_of(text@) == Some(ini_entries(doc)),
            Result::Err(_) => ini_entries_of(text@) is None,
        },
{
    match tini::Ini::from_string(text) {
        Ok(doc) => Ok(doc),
        Err(e) => Err(format!("{}", e)),
    }
}

/// Relies on `tini::Ini::get::<String>`: hands back the raw value of `key` in
/// `section` unchanged (a string always parses as itself), or `None` where
/// the section or key is absent.
#[verifier::external_body]
fn ini_get_str(doc: &tini::Ini, section: &str, key: &str) -> (r: Option<String>)
    ensures
        r.deep_view() == str_entry(ini_entries(*doc), section@, key@),
{
    doc.get::<String>(section, key)
}

/// Relies on `tini::Ini::get::<bool>`: parses the raw value with `bool`'s
/// `FromStr`, which accepts exactly `true` and `false`; absence or any other
/// value gives `None`.
#[verifier::external_body]
fn ini_get_bool(doc: &tini::Ini, section: &str, key: &str) -> (r: Option<bool>)
    ensures
        r == bool_entry(ini_entries(*doc), section@, key@),
{
    doc.get::<bool>(section, key)
}

/// Accumulates optional credential fields before validation.
#[derive(Debug)]
pub struct QBuilder {
    pub user: Option<String>,
    pub pass: Option<String>,
    pub force: bool,
}

impl QBuilder {
    /// An empty builder: no user, no password, force off.
    pub fn new() -> (r: Self)
        ensures
            r.user is None,
            r.pass is None,
            r.force == false,
    {
        QBuilder { user: None, pass: None, force: false }
    }

    /// Overrides the user name where one is supplied.
    pub fn set_user(self, user: Option<&str>) -> (r: Self)
        ensures
            r.user.deep_view() == merged(self.user.deep_view(), user.deep_view()),
            r.pass == self.pass,
            r.force == self.force,
    {
        match user {
            Some(u) => QBuilder { user: Some(u.to_owned()), ..self },
            None => self,
        }
    }

    /// Overrides the password where one is supplied.
    pub fn set_pass(self, pass: Option<&str>) -> (r: Self)
        ensures
            r.pass.deep_view() == merged(self.pass.deep_view(), pass.deep_view()),
            r.user == self.user,
            r.force == self.force,
    {
        match pass {
            Some(p) => QBuilder { pass: Some(p.to_owned()), ..self },
            None => self,
        }
    }

    /// Loads the three credential fields from the text of an INI
    /// configuration file, where one was supplied: `user`, `password` and
    /// `force` under the `[quantic]` section. File values replace whatever
    /// the builder held for user and password; the force flag keeps its old
    /// value where the file has none. A malformed text is an error.
    pub fn read_file(self, contents: Option<&str>) -> (r: Result<Self, String>)
        ensures
            match contents {
                Option::None => r == Result::<QBuilder, String>::Ok(self),
                Option::Some(text) => match r {
                    Result::Ok(b) => {
                        &&& ini_entries_of(text@) is Some
                        &&& b.user.deep_view() == str_entry(
                            ini_entries_of(text@).unwrap(),
                            "quantic"@,
                            "user"@,
                        )
                        &&& b.pass.deep_view() == str_entry(
                            ini_entries_of(text@).unwrap(),
                            "quantic"@,
                            "password"@,
                        )
                        &&& b.force == (match bool_entry(
                            ini_entries_of(text@).unwrap(),
                            "quantic"@,
                            "force"@,
                        ) {
                            Option::Some(v) => v,
                            Option::None => self.force,
                        })
                    },
                    Result::Err(_) => ini_entries_of(text@) is None,
                },
            },
    {
        match contents {
            Some(text) => {
                let doc = match ini_parse(text) {
                    Ok(d) => d,
                    Err(e) => {
                        return Err(e);
                    },
                };
                let user = ini_get_str(&doc, "quantic", "user");
                let pass = ini_get_str(&doc, "quantic", "password");
                let force = match ini_get_bool(&doc, "quantic", "force") {
                    Some(v) => v,
                    None => self.force,
                };
                Ok(QBuilder { user, pass, force })
            },
            None => Ok(self),
        }
    }

    /// Sets the force flag outright.
    pub fn set_force(self, force: bool) -> (r: Self)
        ensures
            r.force == force,
            r.user == self.user,
            r.pass == self.pass,
    {
        QBuilder { force, ..self }
    }

    /// Validates the accumulated fields: both user and password must be
    /// present and non-empty; the user is checked first.
    pub fn build(self) -> (r: Result<Values, String>)
        ensures
            match r {
                Result::Ok(v) => {
                    &&& supplied(self.user.deep_view())
                    &&& supplied(self.pass.deep_view())
                    &&& Some(v.user@) == self.user.deep_view()
                    &&& Some(v.pass@) == self.pass.deep_view()
                    &&& v.force == self.force
                },
                Result::Err(m) => {
                    &&& !(supplied(self.user.deep_view()) && supplied(self.pass.deep_view()))
                    &&& m@ == (if !supplied(self.user.deep_view()) {
                        missing_user_msg()
                    } else {
                        missing_pass_msg()
                    })
                },
            },
    {
        let user_ok = match &self.user {
            Some(u) => !u.as_str().is_empty(),
            None => false,
        };
        if !user_ok {
            return Err("Missing user name. Aborting.".to_owned());
        }
        let pass_ok = match &self.pass {
            Some(p) => !p.as_str().is_empty(),
            None => false,
        };
        if !pass_ok {
            return Err("Missing password. Aborting.".to_owned());
        }
        Ok(Values { user: self.user.unwrap(), pass: self.pass.unwrap(), force: self.force })
    }
}

/// When the command line supplies both user and password, resolution succeeds
/// with exactly those values, whatever the file supplied.
pub proof fn lemma_cli_overrides(
    file_user: Option<Seq<char>>,
    file_pass: Option<Seq<char>>,
    cli_user: Seq<char>,
    cli_pass: Seq<char>,
)
    requires
        cli_user.len() > 0,
        cli_pass.len() > 0,
    ensures
        resolution(file_user, file_pass, Some(cli_user), Some(cli_pass)) == Result::<(
            Seq<char>,
            Seq<char>,
        ), Seq<char>>::Ok((cli_user, cli_pass)),
{
}

/// When the command line supplies neither field and the file supplies both,
/// resolution succeeds with the file values.
pub proof fn lemma_file_fallback(file_user: Seq<char>, file_pass: Seq<char>)
    requires
        file_user.len() > 0,
        file_pass.len() > 0,
    ensures
        resolution(Some(file_user), Some(file_pass), None, None) == Result::<(
            Seq<char>,
            Seq<char>,
        ), Seq<char>>::Ok((file_user, file_pass)),
{
}

/// When neither source supplies the user, resolution fails with the
/// missing-user error; when the user is supplied but neither source supplies
/// the password, it fails with the missing-password error.
pub proof fn lemma_missing_field(
    file_user: Option<Seq<char>>,
    file_pass: Option<Seq<char>>,
    cli_user: Option<Seq<char>>,
    cli_pass: Option<Seq<char>>,
)
    ensures
        !supplied(merged(file_user, cli_user)) ==> resolution(
            file_user,
            file_pass,
            cli_user,
            cli_pass,
        ) == Result::<(Seq<char>, Seq<char>), Seq<char>>::Err(missing_user_msg()),
        supplied(merged(file_user, cli_user)) && !supplied(merged(file_pass, cli_pass))
            ==> resolution(file_user, file_pass, cli_user, cli_pass) == Result::<(
            Seq<char>,
            Seq<char>,
        ), Seq<char>>::Err(missing_pass_msg()),
{
}

} // verus!
