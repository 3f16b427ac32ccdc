use vstd::prelude::*;

use crate::assembly::{BuildAction, BuildState};
use crate::config::{Account, Authentication, Config, ConfigError};
use crate::error::Error;

verus! {

/// The plan for one index client: where it keeps its database, the account it
/// tracks and the proxy it goes through, if any.
#[derive(Debug, Clone, PartialEq, Eq)]
pub struct BernardBuilder {
    pub database_path: String,
    pub account: Account,
    pub proxy: Option<String>,
}

impl BernardBuilder {
    /// Whether this plan has exactly this content.
    pub open spec fn describes(
        self,
        database_path: Seq<char>,
        account: Account,
        proxy: Option<Seq<char>>,
    ) -> bool {
        &&& self.database_path@ == database_path
        &&& self.account == account
        &&& match proxy {
            Some(url) => self.proxy matches Some(p) && p@ == url,
            None => self.proxy is None,
        }
    }

    /// A plan without a proxy.
    pub fn new(database_path: &str, account: Account) -> (b: Self)
        ensures
            b.describes(database_path@, account, None),
    {
        BernardBuilder { database_path: database_path.to_owned(), account, proxy: None }
    }

    /// The same plan through the proxy at `url`, whatever proxy it had.
    pub fn proxy(self, url: &str) -> (b: Self)
        ensures
            b.describes(self.database_path@, self.account, Some(url@)),
            b.database_path == self.database_path,
    {
        BernardBuilder {
            database_path: self.database_path,
            account: self.account,
            proxy: Some(url.to_owned()),
        }
    }
}

/// The plan for the notification client.
#[derive(Debug, Clone, PartialEq, Eq)]
pub struct AutoscanBuilder {
    pub url: String,
    pub authentication: Authentication,
    pub proxy: Option<String>,
}

impl AutoscanBuilder {
    /// Whether this plan has exactly this content.
    pub open spec fn describes(
        self,
        url: String,
        authentication: Authentication,
        proxy: Option<Seq<char>>,
    ) -> bool {
        &&& self.url == url
        &&& self.authentication == authentication
        &&& match proxy {
            Some(url) => self.proxy matches Some(p) && p@ == url,
            None => self.proxy is None,
        }
    }

    /// A plan without a proxy.
    pub fn new(url: String, authentication: Authentication) -> (b: Self)
        ensures
            b.describes(url, authentication, None),
    {
        AutoscanBuilder { url, authentication, proxy: None }
    }

    /// The same plan through the proxy at `url`, whatever proxy it had.
    pub fn proxy(self, url: &str) -> (b: Self)
        ensures
            b.describes(self.url, self.authentication, Some(url@)),
    {
        AutoscanBuilder {
            url: self.url,
            authentication: self.authentication,
            proxy: Some(url.to_owned()),
        }
    }
}

/// The first phase of building an orchestrator: what is to be built, with no
/// client made yet.
#[derive(Debug, Clone, PartialEq, Eq)]
pub struct AtrainBuilder {
    autoscan: AutoscanBuilder,
    bernards: Vec<BernardBuilder>,
    bernard: BernardBuilder,
    drives: Vec<String>,
}

impl AtrainBuilder {
    /// The plan for the notification client.
    pub closed spec fn notifier_plan(self) -> AutoscanBuilder {
        self.autoscan
    }

    /// The plans for the secondary clients, in the order of their accounts.
    pub closed spec fn secondary_plans(self) -> Seq<BernardBuilder> {
        self.bernards@
    }

    /// The plan for the primary client.
    pub closed spec fn primary_plan(self) -> BernardBuilder {
        self.bernard
    }

    /// The drive identifiers.
    pub closed spec fn drive_ids(self) -> Seq<String> {
        self.drives@
    }

    /// Plans one index client for each account of `config`, all with their
    /// database at `database_path`, and the notification client. Fails, having
    /// planned nothing, where `config` has no primary account.
    pub fn new(config: Config, database_path: &str) -> (r: Result<AtrainBuilder, Error>)
        ensures
            config.primary is None ==> r == Err::<AtrainBuilder, Error>(
                Error::Configuration(ConfigError::MissingAccount),
            ),
            config.primary matches Some(account) ==> {
                &&& r matches Ok(b)
                &&& b.primary_plan().describes(database_path@, account, None)
                &&& b.secondary_plans().len() == config.secondary@.len()
                &&& forall|i: int|
                    0 <= i < config.secondary@.len() ==> (
                    #[trigger] b.secondary_plans()[i]).describes(
                        database_path@,
                        config.secondary@[i],
                        None,
                    )
                &&& b.notifier_plan().describes(
                    config.autoscan.url,
                    config.autoscan.authentication,
                    None,
                )
                &&& b.drive_ids() == config.drive.drives@
            },
    {
        if let Err(missing) = config.account() {
            return Err(Error::Configuration(missing));
        }
        let Config { autoscan, drive, secondary, primary } = config;
        let account = primary.unwrap();
        let mut accounts = secondary;
        let mut bernards: Vec<BernardBuilder> = Vec::new();
        while accounts.len() > 0
            invariant
                bernards@.len() + accounts@.len() == secondary@.len(),
                accounts@ == secondary@.subrange(bernards@.len() as int, secondary@.len() as int),
                forall|i: int|
                    0 <= i < bernards@.len() ==> (#[trigger] bernards@[i]).describes(
                        database_path@,
                        secondary@[i],
                        None,
                    ),
            decreases accounts@.len(),
        {
            let next = accounts.remove(0);
            bernards.push(BernardBuilder::new(database_path, next));
            assert(accounts@ == secondary@.subrange(
                bernards@.len() as int,
                secondary@.len() as int,
            ));
        }
        Ok(
            AtrainBuilder {
                autoscan: AutoscanBuilder::new(autoscan.url, autoscan.authentication),
                bernards,
                bernard: BernardBuilder::new(database_path, account),
                drives: drive.drives,
            },
        )
    }

    /// Whether `after` is this builder with every planned client sent through
    /// the proxy at `url`, and nothing else changed.
    pub open spec fn proxied(self, after: Self, url: Seq<char>) -> bool {
        &&& after.notifier_plan().describes(
            self.notifier_plan().url,
            self.notifier_plan().authentication,
            Some(url),
        )
        &&& after.primary_plan().describes(
            self.primary_plan().database_path@,
            self.primary_plan().account,
            Some(url),
        )
        &&& after.secondary_plans().len() == self.secondary_plans().len()
        &&& forall|i: int|
            0 <= i < self.secondary_plans().len() ==> (
            #[trigger] after.secondary_plans()[i]).describes(
                self.secondary_plans()[i].database_path@,
                self.secondary_plans()[i].account,
                Some(url),
            )
        &&& after.drive_ids() == self.drive_ids()
    }

    /// Sends every planned client, the notification client and each index
    /// client, through the proxy at `url`. A proxy set earlier is replaced.
    pub fn proxy(self, url: &str) -> (b: Self)
        ensures
            self.proxied(b, url@),
    {
        let AtrainBuilder { autoscan, bernards, bernard, drives } = self;
        let mut rest = bernards;
        let mut proxied: Vec<BernardBuilder> = Vec::new();
        while rest.len() > 0
            invariant
                proxied@.len() + rest@.len() == bernards@.len(),
                rest@ == bernards@.subrange(proxied@.len() as int, bernards@.len() as int),
                forall|i: int|
                    0 <= i < proxied@.len() ==> (#[trigger] proxied@[i]).describes(
                        bernards@[i].database_path@,
                        bernards@[i].account,
                        Some(url@),
                    ),
            decreases rest@.len(),
        {
            let next = rest.remove(0);
            proxied.push(next.proxy(url));
            assert(rest@ == bernards@.subrange(proxied@.len() as int, bernards@.len() as int));
        }
        AtrainBuilder {
            autoscan: autoscan.proxy(url),
            bernards: proxied,
            bernard: bernard.proxy(url),
            drives,
        }
    }

    /// Begins the second phase: hands out the plans of the secondary clients
    /// to be built side by side, and keeps the rest for the steps that follow.
    pub fn build<C, N>(self) -> (step: (BuildState<C, N>, BuildAction<C, N>))
        ensures
            step.0 matches BuildState::Secondaries { expected, primary, autoscan, drives } && {
                &&& expected == self.secondary_plans().len()
                &&& primary == self.primary_plan()
                &&& autoscan == self.notifier_plan()
                &&& drives@ == self.drive_ids()
            },
            step.1 matches BuildAction::BuildSecondaries(plans) && plans@ == self.secondary_plans(),
    {
        let AtrainBuilder { autoscan, bernards, bernard, drives } = self;
        (
            BuildState::Secondaries {
                expected: bernards.len(),
                primary: bernard,
                autoscan,
                drives,
            },
            BuildAction::BuildSecondaries(bernards),
        )
    }
}

} // verus!
