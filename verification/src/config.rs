//! The configuration that an adapter is built from: named secrets and named
//! parameters, handed over by whoever keeps them.

use vstd::prelude::*;

verus! {

/// The settings that a list of entries amounts to: a later entry replaces an
/// earlier one of the same name.
pub open spec fn settings(entries: Seq<(String, String)>) -> Map<Seq<char>, Seq<char>>
    decreases entries.len(),
{
    if entries.len() == 0 {
        Map::empty()
    } else {
        settings(entries.drop_last()).insert(entries.last().0@, entries.last().1@)
    }
}

/// Named secrets and named parameters. It cannot be printed, so that no
/// secret ends up in a log.
#[derive(Clone, PartialEq, Eq)]
pub struct ConfigStore {
    secrets: Vec<(String, String)>,
    params: Vec<(String, String)>,
}

/// The mathematical reading of a [`ConfigStore`].
pub struct ConfigView {
    pub secrets: Map<Seq<char>, Seq<char>>,
    pub params: Map<Seq<char>, Seq<char>>,
}

impl View for ConfigStore {
    type V = ConfigView;

    closed spec fn view(&self) -> ConfigView {
        ConfigView { secrets: settings(self.secrets@), params: settings(self.params@) }
    }
}

/// The value of the last entry named `name`.
fn lookup<'a>(entries: &'a Vec<(String, String)>, name: &str) -> (r: Option<&'a String>)
    ensures
        match r {
            Some(value) => settings(entries@).contains_key(name@) && settings(entries@)[name@]
                == value@,
            None => !settings(entries@).contains_key(name@),
        },
{
    let wanted = String::from_str(name);
    let mut found: Option<&'a String> = None;
    let mut i: usize = 0;
    while i < entries.len()
        invariant
            i <= entries.len(),
            wanted@ == name@,
            match found {
                Some(value) => settings(entries@.take(i as int)).contains_key(name@) && settings(
                    entries@.take(i as int),
                )[name@] == value@,
                None => !settings(entries@.take(i as int)).contains_key(name@),
            },
        decreases entries.len() - i,
    {
        proof {
            assert(entries@.take(i + 1).drop_last() == entries@.take(i as int));
            assert(entries@.take(i + 1).last() == entries@[i as int]);
        }
        if entries[i].0 == wanted {
            found = Some(&entries[i].1);
        }
        i = i + 1;
    }
    proof {
        assert(entries@.take(i as int) == entries@);
    }
    found
}

impl ConfigStore {
    /// The store without any setting.
    pub fn new() -> (r: ConfigStore)
        ensures
            r@.secrets == Map::<Seq<char>, Seq<char>>::empty(),
            r@.params == Map::<Seq<char>, Seq<char>>::empty(),
    {
        ConfigStore { secrets: Vec::new(), params: Vec::new() }
    }

    /// Sets, or replaces, a secret.
    pub fn set_secret(&mut self, name: &str, value: &str)
        ensures
            final(self)@.secrets == old(self)@.secrets.insert(name@, value@),
            final(self)@.params == old(self)@.params,
    {
        self.secrets.push((String::from_str(name), String::from_str(value)));
        proof {
            assert(self.secrets@.drop_last() == old(self).secrets@);
        }
    }

    /// Sets, or replaces, a parameter.
    pub fn set_param(&mut self, name: &str, value: &str)
        ensures
            final(self)@.params == old(self)@.params.insert(name@, value@),
            final(self)@.secrets == old(self)@.secrets,
    {
        self.params.push((String::from_str(name), String::from_str(value)));
        proof {
            assert(self.params@.drop_last() == old(self).params@);
        }
    }

    /// The secret of that name, where it is set.
    pub fn get_secret(&self, name: &str) -> (r: Option<&String>)
        ensures
            match r {
                Some(value) => self@.secrets.contains_key(name@) && self@.secrets[name@] == value@,
                None => !self@.secrets.contains_key(name@),
            },
    {
        lookup(&self.secrets, name)
    }

    /// The parameter of that name, where it is set.
    pub fn get_param(&self, name: &str) -> (r: Option<&String>)
        ensures
            match r {
                Some(value) => self@.params.contains_key(name@) && self@.params[name@] == value@,
                None => !self@.params.contains_key(name@),
            },
    {
        lookup(&self.params, name)
    }
}

} // verus!
