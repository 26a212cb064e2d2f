//! The configuration tree and the choice of the account a run reports on.
use vstd::prelude::*;

use crate::error::ProfitReportError;

verus! {

/// How the password of an account is obtained.
#[derive(Debug, Clone, PartialEq, Eq)]
pub enum AuthorizationMethod {
    /// The password stands in the configuration file itself.
    Password { user: String, password: String },
    /// The password is looked up in the `pass` store under `pass_path`.
    Pass { user: String, pass_path: String },
}

/// Where the Kimai server of an account is and how to log in to it.
#[derive(Debug, Clone, PartialEq, Eq)]
pub struct KimaiConfig {
    pub host: String,
    pub auth_method: AuthorizationMethod,
}

/// The settings of one named account.
#[derive(Debug, Clone, PartialEq, Eq)]
pub struct AccountConfig {
    pub kimai: KimaiConfig,
}

/// The abstract content of a configuration: the default account's name and
/// the accounts by name.
pub ghost struct ConfigView {
    pub default_account: Seq<char>,
    pub accounts: Map<Seq<char>, AccountConfig>,
}

impl ConfigView {
    /// The name a run uses: the requested one if any, else the default.
    pub open spec fn effective_name(self, requested: Option<Seq<char>>) -> Seq<char> {
        match requested {
            Some(name) => name,
            None => self.default_account,
        }
    }

    /// The account a run selects, if it is defined. The default account is
    /// only checked against the accounts here, when it is actually selected.
    pub open spec fn resolved(self, requested: Option<Seq<char>>) -> Option<AccountConfig> {
        let name = self.effective_name(requested);
        if self.accounts.contains_key(name) {
            Some(self.accounts[name])
        } else {
            None
        }
    }
}

/// The error for an account that is not defined under `name`.
pub open spec fn is_account_not_found(e: ProfitReportError, name: Seq<char>) -> bool {
    match e {
        ProfitReportError::AccountNotFound(n) => n@ == name,
        _ => false,
    }
}

/// The view of an optional account name.
pub open spec fn opt_name(requested: Option<String>) -> Option<Seq<char>> {
    match requested {
        Some(name) => Some(name@),
        None => None,
    }
}

/// A parsed configuration: a default account name and named accounts, each
/// name at most once.
#[derive(Debug)]
pub struct Config {
    default_account: String,
    accounts: Vec<(String, AccountConfig)>,
}

impl Config {
    /// Names are unique among the entries.
    #[verifier::type_invariant]
    closed spec fn well_formed(&self) -> bool {
        forall|i: int, j: int|
            0 <= i < j < self.accounts@.len() ==> #[trigger] self.accounts@[i].0@
                != #[trigger] self.accounts@[j].0@
    }

    closed spec fn has_entry(&self, name: Seq<char>) -> bool {
        exists|i: int| 0 <= i < self.accounts@.len() && #[trigger] self.accounts@[i].0@ == name
    }

    closed spec fn entry_of(&self, name: Seq<char>) -> AccountConfig {
        self.accounts@[choose|i: int|
            0 <= i < self.accounts@.len() && #[trigger] self.accounts@[i].0@ == name].1
    }
}

impl View for Config {
    type V = ConfigView;

    closed spec fn view(&self) -> ConfigView {
        ConfigView {
            default_account: self.default_account@,
            accounts: Map::new(|k: Seq<char>| self.has_entry(k), |k: Seq<char>| self.entry_of(k)),
        }
    }
}

impl Config {
    /// A configuration with the given default account and no accounts yet.
    pub fn new(default_account: String) -> (r: Config)
        ensures
            r@.default_account == default_account@,
            r@.accounts == Map::<Seq<char>, AccountConfig>::empty(),
    {
        let r = Config { default_account, accounts: Vec::new() };
        assert(r@.accounts =~= Map::<Seq<char>, AccountConfig>::empty());
        r
    }

    /// The name of the default account.
    pub fn default_account(&self) -> (r: &String)
        ensures
            r@ == self@.default_account,
    {
        &self.default_account
    }

    /// Index of the entry named `name`, if there is one.
    fn find(&self, name: &String) -> (r: Option<usize>)
        requires
            self.well_formed(),
        ensures
            match r {
                Some(i) => i < self.accounts@.len() && self.accounts@[i as int].0@ == name@,
                None => !self.has_entry(name@),
            },
    {
        let mut i: usize = 0;
        while i < self.accounts.len()
            invariant
                i <= self.accounts@.len(),
                forall|j: int| 0 <= j < i ==> self.accounts@[j].0@ != name@,
            decreases self.accounts@.len() - i,
        {
            if self.accounts[i].0 == *name {
                return Some(i);
            }
            i = i + 1;
        }
        None
    }

    proof fn lemma_entry_at(&self, i: int)
        requires
            self.well_formed(),
            0 <= i < self.accounts@.len(),
        ensures
            self@.accounts.contains_key(self.accounts@[i].0@),
            self@.accounts[self.accounts@[i].0@] == self.accounts@[i].1,
    {
        let name = self.accounts@[i].0@;
        assert(self.has_entry(name));
        let j = choose|j: int| 0 <= j < self.accounts@.len() && #[trigger] self.accounts@[j].0@ == name;
        if j < i {
            assert(self.accounts@[j].0@ != self.accounts@[i].0@);
        } else if i < j {
            assert(self.accounts@[i].0@ != self.accounts@[j].0@);
        }
    }

    /// Defines `account` under `name`, replacing what stood under that name.
    pub fn insert_account(&mut self, name: String, account: AccountConfig)
        ensures
            final(self)@.default_account == old(self)@.default_account,
            final(self)@.accounts == old(self)@.accounts.insert(name@, account),
    {
        let mut taken = Config::new(String::new());
        core::mem::swap(self, &mut taken);
        proof {
            use_type_invariant(&taken);
        }
        let ghost before = taken;
        let found = taken.find(&name);
        let Config { default_account, mut accounts } = taken;
        let ghost n: int = accounts@.len() as int;
        match found {
            Some(i) => {
                accounts.set(i, (name, account));
                assert forall|a: int, b: int|
                    0 <= a < b < accounts@.len() implies #[trigger] accounts@[a].0@
                    != #[trigger] accounts@[b].0@ by {
                    assert(accounts@[a].0@ == before.accounts@[a].0@);
                    assert(accounts@[b].0@ == before.accounts@[b].0@);
                    assert(before.accounts@[a].0@ != before.accounts@[b].0@);
                }
            },
            None => {
                accounts.push((name, account));
                assert forall|a: int, b: int|
                    0 <= a < b < accounts@.len() implies #[trigger] accounts@[a].0@
                    != #[trigger] accounts@[b].0@ by {
                    if b == n {
                        assert(before.accounts@[a].0@ == accounts@[a].0@);
                    } else {
                        assert(before.accounts@[a].0@ != before.accounts@[b].0@);
                    }
                }
            },
        }
        let after = Config { default_account, accounts };
        assert forall|k: Seq<char>| #[trigger] after.has_entry(k) == (k == name@ || before.has_entry(k)) by {
            if before.has_entry(k) {
                let j = choose|j: int| 0 <= j < before.accounts@.len() && #[trigger] before.accounts@[j].0@ == k;
                if found is Some {
                    if j != found->0 {
                        assert(after.accounts@[j].0@ == k);
                    }
                } else {
                    assert(after.accounts@[j].0@ == k);
                }
            }
            if after.has_entry(k) {
                let j = choose|j: int| 0 <= j < after.accounts@.len() && #[trigger] after.accounts@[j].0@ == k;
                if j < n && !(found is Some && j == found->0) {
                    assert(before.accounts@[j].0@ == k);
                }
            }
            if k == name@ {
                match found {
                    Some(i) => assert(after.accounts@[i as int].0@ == k),
                    None => assert(after.accounts@[n].0@ == k),
                }
            }
        }
        assert forall|k: Seq<char>| #[trigger] after.has_entry(k) implies after@.accounts[k]
            == before@.accounts.insert(name@, account)[k] by {
            let j = choose|j: int| 0 <= j < after.accounts@.len() && #[trigger] after.accounts@[j].0@ == k;
            after.lemma_entry_at(j);
            if k != name@ {
                before.lemma_entry_at(j);
            }
        }
        assert(after@.accounts =~= before@.accounts.insert(name@, account));
        *self = after;
    }

    /// Selects the account of a run: the requested name if given, else the
    /// default account, looked up by exact name.
    pub fn resolve_account(&self, requested: Option<String>) -> (r: Result<&AccountConfig, ProfitReportError>)
        ensures
            match r {
                Ok(a) => self@.resolved(opt_name(requested)) == Some(*a),
                Err(e) => self@.resolved(opt_name(requested)) is None && is_account_not_found(
                    e,
                    self@.effective_name(opt_name(requested)),
                ),
            },
    {
        proof {
            use_type_invariant(self);
        }
        let name = match requested {
            Some(a) => a,
            None => self.default_account.clone(),
        };
        match self.find(&name) {
            Some(i) => {
                proof {
                    self.lemma_entry_at(i as int);
                }
                Ok(&self.accounts[i].1)
            },
            None => Err(ProfitReportError::AccountNotFound(name)),
        }
    }
}

/// Selecting an account by name yields the account defined under that name
/// exactly when the name is defined, and nothing otherwise.
pub proof fn lemma_named_account(config: ConfigView, name: Seq<char>)
    ensures
        config.resolved(Some(name)) is Some <==> config.accounts.contains_key(name),
        config.accounts.contains_key(name) ==> config.resolved(Some(name)) == Some(
            config.accounts[name],
        ),
{
}

/// Selecting no account behaves exactly as selecting the default account by
/// name.
pub proof fn lemma_default_account(config: ConfigView)
    ensures
        config.resolved(None) == config.resolved(Some(config.default_account)),
        config.effective_name(None) == config.effective_name(Some(config.default_account)),
{
}

} // verus!
