//! The login cookies in use, which a login can replace while the bot runs.
use vstd::prelude::*;

use crate::config::Config;
use crate::text::{copy_opt, opt_text};

verus! {

/// The cookies, and a number that changes with each replacement.
#[derive(Debug, Clone)]
pub struct RuntimeCredentials {
    bilibili: Option<String>,
    netease: Option<String>,
    revision: u64,
}

/// The cookies as plain characters.
#[verifier::ext_equal]
pub struct CredentialsView {
    pub bilibili: Option<Seq<char>>,
    pub netease: Option<Seq<char>>,
    pub revision: u64,
}

impl View for RuntimeCredentials {
    type V = CredentialsView;

    closed spec fn view(&self) -> CredentialsView {
        CredentialsView {
            bilibili: opt_text(self.bilibili),
            netease: opt_text(self.netease),
            revision: self.revision,
        }
    }
}

/// The first of two values that there is.
pub open spec fn either(
    first: Option<Seq<char>>,
    second: Option<Seq<char>>,
) -> Option<Seq<char>> {
    if first is Some {
        first
    } else {
        second
    }
}

/// The number after `revision`, starting over after the largest.
pub open spec fn next_revision(revision: u64) -> u64 {
    if revision < u64::MAX {
        (revision + 1) as u64
    } else {
        0
    }
}

/// A replacement always changes the revision.
pub proof fn law_revision_changes(revision: u64)
    ensures
        next_revision(revision) != revision,
{
}

impl RuntimeCredentials {
    /// The cookies of the settings.
    pub fn memory(config: &Config, revision: u64) -> (r: RuntimeCredentials)
        ensures
            r@ == (CredentialsView {
                bilibili: opt_text(config.bilibili_cookie),
                netease: opt_text(config.netease_cookie),
                revision,
            }),
    {
        RuntimeCredentials {
            bilibili: copy_opt(&config.bilibili_cookie),
            netease: copy_opt(&config.netease_cookie),
            revision,
        }
    }

    /// The stored cookies, and those of the settings where none are stored.
    pub fn load(
        bilibili: Option<String>,
        netease: Option<String>,
        config: &Config,
        revision: u64,
    ) -> (r: RuntimeCredentials)
        ensures
            r@ == (CredentialsView {
                bilibili: either(opt_text(bilibili), opt_text(config.bilibili_cookie)),
                netease: either(opt_text(netease), opt_text(config.netease_cookie)),
                revision,
            }),
    {
        RuntimeCredentials {
            bilibili: if bilibili.is_some() {
                bilibili
            } else {
                copy_opt(&config.bilibili_cookie)
            },
            netease: if netease.is_some() {
                netease
            } else {
                copy_opt(&config.netease_cookie)
            },
            revision,
        }
    }

    pub fn bilibili(&self) -> (r: Option<String>)
        ensures
            opt_text(r) == self@.bilibili,
    {
        copy_opt(&self.bilibili)
    }

    pub fn netease(&self) -> (r: Option<String>)
        ensures
            opt_text(r) == self@.netease,
    {
        copy_opt(&self.netease)
    }

    /// Uses a new cookie of Bilibili from now on.
    pub fn set_bilibili(&mut self, cookie: String)
        ensures
            final(self)@ == (CredentialsView {
                bilibili: Some(cookie@),
                netease: old(self)@.netease,
                revision: next_revision(old(self)@.revision),
            }),
    {
        self.bilibili = Some(cookie);
        self.revision = self.revision.wrapping_add(1);
    }

    /// Uses a new cookie of Netease from now on.
    pub fn set_netease(&mut self, cookie: String)
        ensures
            final(self)@ == (CredentialsView {
                bilibili: old(self)@.bilibili,
                netease: Some(cookie@),
                revision: next_revision(old(self)@.revision),
            }),
    {
        self.netease = Some(cookie);
        self.revision = self.revision.wrapping_add(1);
    }

    /// Uses a new cookie of Bilibili once the database has taken it. One that the database refuses
    /// changes nothing.
    pub fn store_bilibili<E>(&mut self, cookie: String, written: Result<(), E>) -> (r: Result<
        (),
        E,
    >)
        ensures
            r == written,
            written is Ok ==> final(self)@ == (CredentialsView {
                bilibili: Some(cookie@),
                netease: old(self)@.netease,
                revision: next_revision(old(self)@.revision),
            }),
            written is Err ==> final(self)@ == old(self)@,
    {
        match written {
            Ok(done) => {
                self.set_bilibili(cookie);
                Ok(done)
            },
            Err(error) => Err(error),
        }
    }

    /// Uses a new cookie of Netease once the database has taken it. One that the database refuses
    /// changes nothing.
    pub fn store_netease<E>(&mut self, cookie: String, written: Result<(), E>) -> (r: Result<
        (),
        E,
    >)
        ensures
            r == written,
            written is Ok ==> final(self)@ == (CredentialsView {
                bilibili: old(self)@.bilibili,
                netease: Some(cookie@),
                revision: next_revision(old(self)@.revision),
            }),
            written is Err ==> final(self)@ == old(self)@,
    {
        match written {
            Ok(done) => {
                self.set_netease(cookie);
                Ok(done)
            },
            Err(error) => Err(error),
        }
    }

    pub fn revision(&self) -> (r: u64)
        ensures
            r == self@.revision,
    {
        self.revision
    }
}

} // verus!
