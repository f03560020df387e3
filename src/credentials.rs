//! Model providers and the API keys stored for them.

use crate::text::{lower_of, lowercase, same_text};
use vstd::prelude::*;
use vstd::string::*;

verus! {

/// A supported model provider.
#[derive(Debug, Clone, Copy, PartialEq, Eq, Structural)]
pub enum Provider {
    Anthropic,
    OpenAI,
    Google,
}

/// The id of provider `p`.
pub open spec fn provider_id(p: Provider) -> Seq<char> {
    match p {
        Provider::Anthropic => "anthropic"@,
        Provider::OpenAI => "openai"@,
        Provider::Google => "google"@,
    }
}

/// The environment variable that hands provider `p`'s key to the agent.
pub open spec fn provider_env_var(p: Provider) -> Seq<char> {
    match p {
        Provider::Anthropic => "ANTHROPIC_API_KEY"@,
        Provider::OpenAI => "OPENAI_API_KEY"@,
        Provider::Google => "GOOGLE_API_KEY"@,
    }
}

/// The provider whose id is `id`.
pub open spec fn provider_of_id(id: Seq<char>) -> Option<Provider> {
    if id == "anthropic"@ {
        Some(Provider::Anthropic)
    } else if id == "openai"@ {
        Some(Provider::OpenAI)
    } else if id == "google"@ {
        Some(Provider::Google)
    } else {
        None
    }
}

/// All providers, in the order they are listed.
pub open spec fn all_providers() -> Seq<Provider> {
    seq![Provider::Anthropic, Provider::OpenAI, Provider::Google]
}

impl Provider {
    /// The provider's id.
    pub fn as_str(&self) -> (r: &'static str)
        ensures
            r@ == provider_id(*self),
    {
        match self {
            Provider::Anthropic => "anthropic",
            Provider::OpenAI => "openai",
            Provider::Google => "google",
        }
    }

    /// The environment variable for the provider's API key.
    pub fn env_var_name(&self) -> (r: &'static str)
        ensures
            r@ == provider_env_var(*self),
    {
        match self {
            Provider::Anthropic => "ANTHROPIC_API_KEY",
            Provider::OpenAI => "OPENAI_API_KEY",
            Provider::Google => "GOOGLE_API_KEY",
        }
    }

    /// The provider whose id is `id`, spelled in lower case.
    pub fn from_lowercase(id: &str) -> (r: Option<Provider>)
        ensures
            r == provider_of_id(id@),
    {
        if same_text(id, "anthropic") {
            Some(Provider::Anthropic)
        } else if same_text(id, "openai") {
            Some(Provider::OpenAI)
        } else if same_text(id, "google") {
            Some(Provider::Google)
        } else {
            None
        }
    }

    /// The provider whose id is `s`, in any letter case.
    pub fn from_str(s: &str) -> (r: Option<Provider>)
        ensures
            r == provider_of_id(lower_of(s@)),
    {
        let lower = lowercase(s);
        Provider::from_lowercase(lower.as_str())
    }

    /// All supported providers.
    pub fn all() -> (r: &'static [Provider])
        ensures
            r@ == all_providers(),
    {
        let r: &'static [Provider] = &[Provider::Anthropic, Provider::OpenAI, Provider::Google];
        assert(r@ =~= all_providers());
        r
    }
}

/// The value stored under `key`: that of the first entry with that key.
pub open spec fn stored_value(entries: Seq<(String, String)>, key: Seq<char>) -> Option<Seq<char>>
    decreases entries.len(),
{
    if entries.len() == 0 {
        None
    } else if entries[0].0@ == key {
        Some(entries[0].1@)
    } else {
        stored_value(entries.drop_first(), key)
    }
}

/// `entries` without those whose key is `key`.
pub open spec fn without_key(entries: Seq<(String, String)>, key: Seq<char>) -> Seq<(String, String)>
    decreases entries.len(),
{
    if entries.len() == 0 {
        Seq::empty()
    } else {
        let init = without_key(entries.drop_last(), key);
        if entries.last().0@ == key {
            init
        } else {
            init.push(entries.last())
        }
    }
}

proof fn lemma_stored_push(s: Seq<(String, String)>, e: (String, String), key: Seq<char>)
    ensures
        stored_value(s.push(e), key) == match stored_value(s, key) {
            Some(x) => Some(x),
            None => if e.0@ == key {
                Some(e.1@)
            } else {
                None
            },
        },
    decreases s.len(),
{
    if s.len() > 0 {
        assert(s.push(e)[0] == s[0]);
        assert(s.push(e).drop_first() =~= s.drop_first().push(e));
        lemma_stored_push(s.drop_first(), e, key);
    } else {
        assert(s.push(e)[0] == e);
        assert(s.push(e).drop_first() =~= Seq::<(String, String)>::empty());
        assert(stored_value(Seq::<(String, String)>::empty(), key) is None);
    }
}

proof fn lemma_stored_without(s: Seq<(String, String)>, k: Seq<char>, key: Seq<char>)
    ensures
        stored_value(without_key(s, k), key) == if key == k {
            None
        } else {
            stored_value(s, key)
        },
    decreases s.len(),
{
    if s.len() > 0 {
        lemma_stored_without(s.drop_last(), k, key);
        lemma_stored_push(s.drop_last(), s.last(), key);
        assert(s.drop_last().push(s.last()) =~= s);
        if s.last().0@ != k {
            lemma_stored_push(without_key(s.drop_last(), k), s.last(), key);
        }
    }
}

/// The texts of each pair.
pub open spec fn pair_views(v: Seq<(String, String)>) -> Seq<(Seq<char>, Seq<char>)> {
    v.map_values(|p: (String, String)| (p.0@, p.1@))
}

/// The API keys of a credentials file, by provider id. Entries under ids
/// of no known provider are kept as they are.
pub struct CredentialManager {
    api_keys: Vec<(String, String)>,
}

/// The environment variables that hand the keys stored in `m` for
/// `providers` to the agent, in the order of `providers`.
pub open spec fn env_pairs(m: CredentialManager, providers: Seq<Provider>) -> Seq<(Seq<char>, Seq<char>)>
    decreases providers.len(),
{
    if providers.len() == 0 {
        Seq::empty()
    } else {
        let init = env_pairs(m, providers.drop_last());
        let p = providers.last();
        match m.stored(provider_id(p)) {
            Some(k) => init.push((provider_env_var(p), k)),
            None => init,
        }
    }
}

impl CredentialManager {
    /// The stored entries, in the order they are kept.
    pub closed spec fn entries(&self) -> Seq<(String, String)> {
        self.api_keys@
    }

    /// The key stored under provider id `id`.
    pub open spec fn stored(&self, id: Seq<char>) -> Option<Seq<char>> {
        stored_value(self.entries(), id)
    }

    /// A store without keys.
    pub fn new() -> (r: CredentialManager)
        ensures
            forall|id: Seq<char>| r.stored(id) is None,
    {
        CredentialManager { api_keys: Vec::new() }
    }

    /// A store of `entries`; of entries with the same id, the last one counts.
    pub fn from_entries(entries: &Vec<(String, String)>) -> (r: CredentialManager)
        ensures
            forall|id: Seq<char>| r.stored(id) == stored_value(entries@.reverse(), id),
    {
        let mut r = CredentialManager::new();
        let mut i: usize = 0;
        while i < entries.len()
            invariant
                i <= entries.len(),
                forall|id: Seq<char>| r.stored(id) == stored_value(entries@.subrange(0, i as int).reverse(), id),
            decreases entries.len() - i,
        {
            let ghost before = r;
            let key = entries[i].0.clone();
            let value = entries[i].1.clone();
            r.set(key.as_str(), value.as_str());
            proof {
                let prefix = entries@.subrange(0, i as int);
                let next = entries@.subrange(0, i + 1);
                assert(next.reverse().drop_first() =~= prefix.reverse());
                assert(next.reverse()[0] == entries@[i as int]);
            }
            i = i + 1;
        }
        assert(entries@.subrange(0, entries@.len() as int) =~= entries@);
        r
    }

    /// The entries of the store, for writing it back.
    pub fn entries_ref(&self) -> (r: &Vec<(String, String)>)
        ensures
            r@ == self.entries(),
    {
        &self.api_keys
    }

    fn remove_key(&mut self, id: &str)
        ensures
            final(self).entries() == without_key(old(self).entries(), id@),
    {
        let mut kept: Vec<(String, String)> = Vec::new();
        let mut i: usize = 0;
        while i < self.api_keys.len()
            invariant
                i <= self.api_keys.len(),
                kept@ == without_key(self.api_keys@.subrange(0, i as int), id@),
            decreases self.api_keys.len() - i,
        {
            assert(self.api_keys@.subrange(0, i + 1).drop_last() =~= self.api_keys@.subrange(0, i as int));
            if !same_text(self.api_keys[i].0.as_str(), id) {
                kept.push((self.api_keys[i].0.clone(), self.api_keys[i].1.clone()));
            }
            i = i + 1;
        }
        assert(self.api_keys@.subrange(0, self.api_keys@.len() as int) =~= self.api_keys@);
        self.api_keys = kept;
    }

    fn set(&mut self, id: &str, key: &str)
        ensures
            forall|k: Seq<char>| final(self).stored(k) == if k == id@ {
                Some(key@)
            } else {
                old(self).stored(k)
            },
    {
        let ghost start = self.api_keys@;
        self.remove_key(id);
        let ghost kept = self.api_keys@;
        self.api_keys.push((id.to_owned(), key.to_owned()));
        assert forall|k: Seq<char>| self.stored(k) == if k == id@ {
            Some(key@)
        } else {
            stored_value(start, k)
        } by {
            lemma_stored_without(start, id@, k);
            lemma_stored_without(start, id@, id@);
            lemma_stored_push(kept, self.api_keys@.last(), k);
            assert(kept.push(self.api_keys@.last()) =~= self.api_keys@);
        }
    }

    /// Stores `api_key` for `provider`, replacing any key it had.
    pub fn save_credential(&mut self, provider: Provider, api_key: &str)
        ensures
            forall|k: Seq<char>| final(self).stored(k) == if k == provider_id(provider) {
                Some(api_key@)
            } else {
                old(self).stored(k)
            },
    {
        self.set(provider.as_str(), api_key);
    }

    /// Removes the key of `provider`.
    pub fn delete_credential(&mut self, provider: Provider)
        ensures
            forall|k: Seq<char>| final(self).stored(k) == if k == provider_id(provider) {
                None
            } else {
                old(self).stored(k)
            },
    {
        let ghost start = self.api_keys@;
        self.remove_key(provider.as_str());
        assert forall|k: Seq<char>| self.stored(k) == if k == provider_id(provider) {
            None
        } else {
            stored_value(start, k)
        } by {
            lemma_stored_without(start, provider_id(provider), k);
        }
    }

    /// The key stored for `provider`.
    pub fn get_credential(&self, provider: Provider) -> (r: Option<String>)
        ensures
            r is Some == self.stored(provider_id(provider)) is Some,
            r matches Some(k) ==> k@ == self.stored(provider_id(provider))->0,
    {
        let id = provider.as_str();
        let mut i: usize = 0;
        assert(self.api_keys@.subrange(0, self.api_keys@.len() as int) =~= self.api_keys@);
        while i < self.api_keys.len()
            invariant
                i <= self.api_keys.len(),
                id@ == provider_id(provider),
                self.stored(id@) == stored_value(self.api_keys@.subrange(i as int, self.api_keys@.len() as int), id@),
            decreases self.api_keys.len() - i,
        {
            assert(self.api_keys@.subrange(i as int, self.api_keys@.len() as int).drop_first()
                =~= self.api_keys@.subrange(i + 1, self.api_keys@.len() as int));
            if same_text(self.api_keys[i].0.as_str(), id) {
                return Some(self.api_keys[i].1.clone());
            }
            i = i + 1;
        }
        None
    }

    /// Whether a key is stored for `provider`.
    pub fn has_credential(&self, provider: Provider) -> (r: bool)
        ensures
            r == self.stored(provider_id(provider)) is Some,
    {
        self.get_credential(provider).is_some()
    }

    /// For each provider, in order, its id and whether a key is stored for it.
    pub fn list_credentials(&self) -> (r: Vec<(String, bool)>)
        ensures
            r@.len() == all_providers().len(),
            forall|i: int| 0 <= i < r@.len() ==> r@[i].0@ == provider_id(#[trigger] all_providers()[i])
                && r@[i].1 == self.stored(provider_id(all_providers()[i])) is Some,
    {
        let providers = Provider::all();
        let mut result: Vec<(String, bool)> = Vec::new();
        let mut i: usize = 0;
        while i < providers.len()
            invariant
                i <= providers.len(),
                providers@ == all_providers(),
                result@.len() == i,
                forall|j: int| 0 <= j < i ==> result@[j].0@ == provider_id(#[trigger] all_providers()[j])
                    && result@[j].1 == self.stored(provider_id(all_providers()[j])) is Some,
            decreases providers.len() - i,
        {
            let provider = providers[i];
            let has_key = self.has_credential(provider);
            result.push((provider.as_str().to_owned(), has_key));
            i = i + 1;
        }
        result
    }

    /// The environment variables that hand the stored keys to the agent:
    /// for each provider with a key, in order, its variable and the key.
    pub fn get_credentials_as_env_vars(&self) -> (r: Vec<(String, String)>)
        ensures
            pair_views(r@) == env_pairs(*self, all_providers()),
    {
        let providers = Provider::all();
        let mut env_vars: Vec<(String, String)> = Vec::new();
        let mut i: usize = 0;
        while i < providers.len()
            invariant
                i <= providers.len(),
                providers@ == all_providers(),
                pair_views(env_vars@) == env_pairs(*self, providers@.subrange(0, i as int)),
            decreases providers.len() - i,
        {
            let provider = providers[i];
            assert(providers@.subrange(0, i + 1).drop_last() =~= providers@.subrange(0, i as int));
            match self.get_credential(provider) {
                Some(api_key) => {
                    env_vars.push((provider.env_var_name().to_owned(), api_key));
                    assert(pair_views(env_vars@) =~= env_pairs(*self, providers@.subrange(0, i as int)).push(
                        (provider_env_var(provider), self.stored(provider_id(provider))->0),
                    ));
                },
                None => {},
            }
            i = i + 1;
        }
        assert(providers@.subrange(0, providers@.len() as int) =~= providers@);
        env_vars
    }
}

} // verus!
