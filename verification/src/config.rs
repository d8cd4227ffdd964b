//! The stored settings: the completion service's key and the accounts.

use vstd::prelude::*;
use crate::model::{views, Account, AccountView};

verus! {

/// The settings of the program. Credentials are not validated, and an
/// identifier may occur more than once.
#[derive(Debug, PartialEq, Eq)]
pub struct Config {
    pub api_key: String,
    pub accounts: Vec<Account>,
}

/// The settings as plain text.
pub struct ConfigView {
    pub api_key: Seq<char>,
    pub accounts: Seq<AccountView>,
}

impl View for Config {
    type V = ConfigView;

    open spec fn view(&self) -> ConfigView {
        ConfigView { api_key: self.api_key@, accounts: views(self.accounts@) }
    }
}

/// The accounts that do not have the given identifier, in their order.
pub open spec fn without(accounts: Seq<AccountView>, id: Seq<char>) -> Seq<AccountView>
    decreases accounts.len(),
{
    if accounts.len() == 0 {
        Seq::empty()
    } else if accounts.last().id == id {
        without(accounts.drop_last(), id)
    } else {
        without(accounts.drop_last(), id).push(accounts.last())
    }
}

impl Default for Config {
    /// No key and no accounts.
    fn default() -> (r: Config)
        ensures
            r@.api_key == Seq::<char>::empty(),
            r@.accounts == Seq::<AccountView>::empty(),
    {
        let r = Config { api_key: String::new(), accounts: Vec::new() };
        assert(r@.accounts =~= Seq::<AccountView>::empty());
        r
    }
}

impl Config {
    /// Appends an account; one with the same identifier may already be there.
    pub fn add_account(&mut self, id: String, credential: String)
        ensures
            final(self)@.api_key == old(self)@.api_key,
            final(self)@.accounts == old(self)@.accounts.push(
                AccountView { id: id@, credential: credential@ },
            ),
    {
        self.accounts.push(Account { id, credential });
        assert(self@.accounts =~= old(self)@.accounts.push(
            AccountView { id: id@, credential: credential@ },
        ));
    }

    /// Removes every account with this identifier and keeps the others in order.
    pub fn remove_account(&mut self, id: &String)
        ensures
            final(self)@.api_key == old(self)@.api_key,
            final(self)@.accounts == without(old(self)@.accounts, id@),
    {
        let mut kept: Vec<Account> = Vec::new();
        let mut i: usize = 0;
        assert(views(self.accounts@).take(0) =~= Seq::<AccountView>::empty());
        assert(views(kept@) =~= Seq::<AccountView>::empty());
        while i < self.accounts.len()
            invariant
                i <= self.accounts.len(),
                *self == *old(self),
                views(kept@) == without(views(self.accounts@).take(i as int), id@),
            decreases self.accounts.len() - i,
        {
            let ghost before = views(kept@);
            let ghost all = views(self.accounts@);
            assert(all.take(i + 1).drop_last() =~= all.take(i as int));
            assert(all.take(i + 1).last() == self.accounts@[i as int]@);
            if self.accounts[i].id != *id {
                kept.push(self.accounts[i].duplicate());
                assert(views(kept@) =~= before.push(self.accounts@[i as int]@));
            }
            i = i + 1;
        }
        assert(views(self.accounts@).take(i as int) =~= views(self.accounts@));
        self.accounts = kept;
    }

    /// Replaces the completion service's key.
    pub fn set_api_key(&mut self, key: String)
        ensures
            final(self)@.api_key == key@,
            final(self)@.accounts == old(self)@.accounts,
    {
        self.api_key = key;
    }
}

} // verus!
