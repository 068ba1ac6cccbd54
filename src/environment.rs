//! A store of environment variables, each a name with a value.
//!
//! Reading the variables of the running process, and exporting to it, is left
//! to the caller: the store is handed the values that were found.
use vstd::prelude::*;

verus! {

/// Describes possible errors when dealing with environment variables.
#[derive(Debug, Clone, PartialEq, Eq)]
pub enum EnvironmentError {
    /// The requested variable does not exist.
    NonExistent,
    /// The requested variable already exists.
    AlreadyExists,
    /// A completely unexpected error occurred; the text describes it.
    Unknown(String),
}

/// A result whose error is an [`EnvironmentError`].
pub type EnvironmentResult<T> = Result<T, EnvironmentError>;

/// The variables that `pairs` sets over `base`, a later pair replacing the
/// value of an earlier one with the same name.
pub open spec fn overlay(base: Map<Seq<char>, Seq<char>>, pairs: Seq<(String, String)>) -> Map<Seq<char>, Seq<char>>
    decreases pairs.len(),
{
    if pairs.len() == 0 {
        base
    } else {
        overlay(base, pairs.drop_last()).insert(pairs.last().0@, pairs.last().1@)
    }
}

/// Environment variables by name.
///
/// The pairs are kept in a `Vec`, each name at most once: std's `HashMap`
/// keyed by `String` has no specification that lets Verus prove what a lookup
/// returns after an insertion.
#[derive(Debug)]
pub struct Environment {
    entries: Vec<(String, String)>,
}

impl View for Environment {
    type V = Map<Seq<char>, Seq<char>>;

    closed spec fn view(&self) -> Map<Seq<char>, Seq<char>> {
        overlay(Map::empty(), self.entries@)
    }
}

proof fn lemma_overlay_push(base: Map<Seq<char>, Seq<char>>, pairs: Seq<(String, String)>, pair: (String, String))
    ensures
        overlay(base, pairs.push(pair)) == overlay(base, pairs).insert(pair.0@, pair.1@),
{
    assert(pairs.push(pair).drop_last() =~= pairs);
}

proof fn lemma_overlay_update(
    base: Map<Seq<char>, Seq<char>>,
    pairs: Seq<(String, String)>,
    i: int,
    pair: (String, String),
)
    requires
        0 <= i < pairs.len(),
        pairs[i].0@ == pair.0@,
        forall|j: int| i < j < pairs.len() ==> pairs[j].0@ != pair.0@,
    ensures
        overlay(base, pairs.update(i, pair)) == overlay(base, pairs).insert(pair.0@, pair.1@),
    decreases pairs.len(),
{
    let updated = pairs.update(i, pair);
    if i == pairs.len() - 1 {
        assert(updated.drop_last() =~= pairs.drop_last());
        assert(overlay(base, updated) =~= overlay(base, pairs).insert(pair.0@, pair.1@));
    } else {
        assert(updated.drop_last() =~= pairs.drop_last().update(i, pair));
        lemma_overlay_update(base, pairs.drop_last(), i, pair);
        assert(overlay(base, updated) =~= overlay(base, pairs).insert(pair.0@, pair.1@));
    }
}

impl Environment {
    /// An empty store.
    pub fn new() -> (r: Self)
        ensures
            r@ == Map::<Seq<char>, Seq<char>>::empty(),
    {
        Environment { entries: Vec::new() }
    }

    /// Sets `var_name` to `var_value`, replacing any earlier value.
    pub fn add(&mut self, var_name: &str, var_value: &str) -> (r: EnvironmentResult<()>)
        ensures
            final(self)@ == old(self)@.insert(var_name@, var_value@),
            r is Ok,
    {
        let wanted = var_name.to_string();
        let pair = (var_name.to_string(), var_value.to_string());
        let mut i: usize = self.entries.len();
        while i > 0
            invariant
                i <= self.entries@.len(),
                self.entries@ == old(self).entries@,
                wanted@ == var_name@,
                pair.0@ == var_name@,
                pair.1@ == var_value@,
                forall|j: int| i <= j < self.entries@.len() ==> self.entries@[j].0@ != var_name@,
            decreases i,
        {
            if self.entries[i - 1].0 == wanted {
                proof {
                    lemma_overlay_update(Map::empty(), self.entries@, i - 1, pair);
                }
                self.entries[i - 1] = pair;
                return Ok(());
            }
            i = i - 1;
        }
        proof {
            lemma_overlay_push(Map::empty(), self.entries@, pair);
        }
        self.entries.push(pair);
        Ok(())
    }

    /// Sets `var_name` to the value the process environment has for it, as
    /// looked up by the caller; fails with `NonExistent`, changing nothing, where
    /// the variable is not set.
    pub fn add_from_process_environment(&mut self, var_name: &str, found: Option<String>) -> (r: EnvironmentResult<()>)
        ensures
            match found {
                Some(v) => r is Ok && final(self)@ == old(self)@.insert(var_name@, v@),
                None => r == EnvironmentResult::<()>::Err(EnvironmentError::NonExistent) && final(self)@ == old(self)@,
            },
    {
        match found {
            Some(value) => self.add(var_name, value.as_str()),
            None => Err(EnvironmentError::NonExistent),
        }
    }

    /// The value of `var_name`, where it is set.
    pub fn get(&self, var_name: &str) -> (r: Option<String>)
        ensures
            match r {
                Some(v) => self@.contains_key(var_name@) && self@[var_name@] == v@,
                None => !self@.contains_key(var_name@),
            },
    {
        let wanted = var_name.to_string();
        let mut i: usize = self.entries.len();
        assert(self.entries@.take(i as int) =~= self.entries@);
        while i > 0
            invariant
                i <= self.entries@.len(),
                wanted@ == var_name@,
                overlay(Map::empty(), self.entries@).contains_key(var_name@)
                    == overlay(Map::empty(), self.entries@.take(i as int)).contains_key(var_name@),
                overlay(Map::empty(), self.entries@).contains_key(var_name@)
                    ==> overlay(Map::empty(), self.entries@)[var_name@]
                    == overlay(Map::empty(), self.entries@.take(i as int))[var_name@],
            decreases i,
        {
            let entry = &self.entries[i - 1];
            proof {
                assert(self.entries@.take(i as int).drop_last() =~= self.entries@.take(i - 1));
            }
            if entry.0 == wanted {
                return Some(entry.1.clone());
            }
            i = i - 1;
        }
        None
    }

    /// Sets every variable of `vars` in turn, as the caller read them from the
    /// process environment.
    pub fn parse_whole_process_environment(&mut self, vars: Vec<(String, String)>) -> (r: EnvironmentResult<()>)
        ensures
            final(self)@ == overlay(old(self)@, vars@),
            r is Ok,
    {
        let ghost start = self@;
        let mut i: usize = 0;
        while i < vars.len()
            invariant
                i <= vars@.len(),
                self@ == overlay(start, vars@.take(i as int)),
            decreases vars@.len() - i,
        {
            let pair = &vars[i];
            let _ = self.add(pair.0.as_str(), pair.1.as_str());
            proof {
                assert(vars@.take(i as int + 1).drop_last() =~= vars@.take(i as int));
            }
            i = i + 1;
        }
        assert(vars@.take(vars@.len() as int) =~= vars@);
        Ok(())
    }

    /// Sets `var_name` to the value the process environment has for it, as
    /// looked up by the caller, and to `default` where it is not set.
    pub fn add_with_default(&mut self, var_name: &str, default: &str, found: Option<String>) -> (r: EnvironmentResult<()>)
        ensures
            final(self)@ == old(self)@.insert(var_name@, match found {
                Some(v) => v@,
                None => default@,
            }),
            r is Ok,
    {
        if self.add_from_process_environment(var_name, found).is_err() {
            let _ = self.add(var_name, default);
        }
        Ok(())
    }
}

} // verus!
