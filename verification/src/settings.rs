//! Application settings: what the settings table holds, and the defaults
//! that stand in for what it does not hold.

use vstd::prelude::*;
use vstd::string::*;
use crate::text::text_eq;

verus! {

/// One row of the settings table.
#[derive(Debug)]
pub struct Setting {
    pub key: String,
    pub value: String,
}

/// The settings table as it was read: at most one value for a key.
#[derive(Debug)]
pub struct Settings {
    entries: Vec<Setting>,
}

/// The value of the first entry with the key.
pub open spec fn first_value(entries: Seq<Setting>, key: Seq<char>) -> Option<Seq<char>>
    decreases entries.len(),
{
    if entries.len() == 0 {
        None
    } else if entries[0].key@ == key {
        Some(entries[0].value@)
    } else {
        first_value(entries.drop_first(), key)
    }
}

/// The value that stands in for a key which the table does not hold.
pub open spec fn default_setting(key: Seq<char>) -> Option<Seq<char>> {
    if key == "language"@ {
        Some("en"@)
    } else if key == "theme"@ {
        Some("light"@)
    } else if key == "notifications"@ {
        Some("true"@)
    } else if key == "db_host"@ {
        Some("localhost"@)
    } else if key == "db_port"@ {
        Some("5432"@)
    } else if key == "db_name"@ {
        Some("mes_service_db"@)
    } else if key == "db_user"@ {
        Some("postgres"@)
    } else if key == "db_password"@ {
        Some("postgres"@)
    } else {
        None
    }
}

/// The stored value where there is one, the default otherwise.
pub open spec fn effective_setting(stored: Option<Seq<char>>, key: Seq<char>) -> Option<Seq<char>> {
    match stored {
        Some(value) => Some(value),
        None => default_setting(key),
    }
}

/// What is answered for a key that has neither a stored value nor a default.
pub open spec fn unknown_setting_message(key: Seq<char>) -> Seq<char> {
    "Impostazione '"@ + key + "' non trovata"@
}

/// What is answered once a value is stored.
pub open spec fn saved_setting_message(key: Seq<char>, value: Seq<char>) -> Seq<char> {
    "Impostazione '"@ + key + "' salvata con valore '"@ + value + "'"@
}

fn default_for(key: &str) -> (r: Option<String>)
    ensures
        r.deep_view() == default_setting(key@),
{
    if text_eq(key, "language") {
        Some("en".to_owned())
    } else if text_eq(key, "theme") {
        Some("light".to_owned())
    } else if text_eq(key, "notifications") {
        Some("true".to_owned())
    } else if text_eq(key, "db_host") {
        Some("localhost".to_owned())
    } else if text_eq(key, "db_port") {
        Some("5432".to_owned())
    } else if text_eq(key, "db_name") {
        Some("mes_service_db".to_owned())
    } else if text_eq(key, "db_user") {
        Some("postgres".to_owned())
    } else if text_eq(key, "db_password") {
        Some("postgres".to_owned())
    } else {
        None
    }
}

impl Settings {
    /// The stored value of a key.
    pub closed spec fn stored(&self, key: Seq<char>) -> Option<Seq<char>> {
        first_value(self.entries@, key)
    }

    /// An empty table.
    pub fn new() -> (s: Settings)
        ensures
            forall|key: Seq<char>| s.stored(key) is None,
    {
        Settings { entries: Vec::new() }
    }

    /// Looks a key up in the table.
    pub fn get(&self, key: &str) -> (r: Option<String>)
        ensures
            r.deep_view() == self.stored(key@),
    {
        let mut i: usize = 0;
        assert(self.entries@.skip(0) =~= self.entries@);
        while i < self.entries.len()
            invariant
                i <= self.entries.len(),
                first_value(self.entries@, key@) == first_value(self.entries@.skip(i as int), key@),
            decreases self.entries.len() - i,
        {
            assert(self.entries@.skip(i as int)[0] == self.entries@[i as int]);
            if text_eq(self.entries[i].key.as_str(), key) {
                return Some(self.entries[i].value.clone());
            }
            assert(self.entries@.skip(i as int).drop_first() =~= self.entries@.skip(i + 1));
            i += 1;
        }
        None
    }

    /// Stores a value under a key, in place of the value it had.
    pub fn put(&mut self, key: String, value: String)
        ensures
            forall|k: Seq<char>|
                final(self).stored(k) == if k == key@ {
                    Some(value@)
                } else {
                    old(self).stored(k)
                },
    {
        let ghost before = self.entries@;
        let ghost key_view = key@;
        let ghost value_view = value@;
        let mut i: usize = 0;
        while i < self.entries.len()
            invariant
                i <= self.entries.len(),
                self.entries@ == before,
                before == old(self).entries@,
                key@ == key_view,
                value@ == value_view,
                forall|j: int| 0 <= j < i ==> (#[trigger] before[j]).key@ != key_view,
            decreases self.entries.len() - i,
        {
            if text_eq(self.entries[i].key.as_str(), key.as_str()) {
                self.entries.set(i, Setting { key, value });
                proof {
                    let after = self.entries@;
                    assert forall|k: Seq<char>|
                        first_value(after, k) == if k == key_view {
                            Some(value_view)
                        } else {
                            first_value(before, k)
                        } by {
                        first_value_after_replace(before, after, i as int, k);
                    }
                }
                return ;
            }
            i += 1;
        }
        self.entries.push(Setting { key, value });
        proof {
            let after = self.entries@;
            assert forall|k: Seq<char>|
                first_value(after, k) == if k == key_view {
                    Some(value_view)
                } else {
                    first_value(before, k)
                } by {
                first_value_after_append(before, after, k);
            }
        }
    }
}

proof fn first_value_after_replace(before: Seq<Setting>, after: Seq<Setting>, i: int, k: Seq<char>)
    requires
        0 <= i < before.len(),
        after.len() == before.len(),
        forall|j: int| 0 <= j < before.len() && j != i ==> after[j] == before[j],
        after[i].key@ == before[i].key@,
        forall|j: int| 0 <= j < i ==> (#[trigger] before[j]).key@ != before[i].key@,
    ensures
        first_value(after, k) == if k == after[i].key@ {
            Some(after[i].value@)
        } else {
            first_value(before, k)
        },
    decreases before.len(),
{
    if i == 0 {
        assert(after.drop_first() =~= before.drop_first());
    } else {
        assert(after[0] == before[0]);
        assert(before[0].key@ != before[i].key@);
        let b = before.drop_first();
        let a = after.drop_first();
        assert forall|j: int| 0 <= j < b.len() && j != i - 1 implies a[j] == b[j] by {
            assert(after[j + 1] == before[j + 1]);
        }
        assert forall|j: int| 0 <= j < i - 1 implies (#[trigger] b[j]).key@ != b[i - 1].key@ by {
            assert(before[j + 1].key@ != before[i].key@);
        }
        first_value_after_replace(b, a, i - 1, k);
    }
}

proof fn first_value_after_append(before: Seq<Setting>, after: Seq<Setting>, k: Seq<char>)
    requires
        after.len() == before.len() + 1,
        forall|j: int| 0 <= j < before.len() ==> after[j] == before[j],
        forall|j: int| 0 <= j < before.len() ==> (#[trigger] before[j]).key@ != after.last().key@,
    ensures
        first_value(after, k) == if k == after.last().key@ {
            Some(after.last().value@)
        } else {
            first_value(before, k)
        },
    decreases before.len(),
{
    if before.len() == 0 {
        assert(after.drop_first().len() == 0);
    } else {
        assert(after[0] == before[0]);
        assert(before[0].key@ != after.last().key@);
        let b = before.drop_first();
        let a = after.drop_first();
        assert forall|j: int| 0 <= j < b.len() implies a[j] == b[j] by {
            assert(after[j + 1] == before[j + 1]);
        }
        assert forall|j: int| 0 <= j < b.len() implies (#[trigger] b[j]).key@ != a.last().key@ by {
            assert(before[j + 1].key@ != after.last().key@);
        }
        first_value_after_append(b, a, k);
    }
}

/// The value of a setting: the stored value where the table holds the key,
/// otherwise the default of the key, otherwise a failure that names the key.
pub fn get_setting_internal(settings: &Settings, key: &str) -> (r: Result<String, String>)
    ensures
        match r {
            Ok(value) => effective_setting(settings.stored(key@), key@) == Some(value@),
            Err(message) => effective_setting(settings.stored(key@), key@) is None && message@
                == unknown_setting_message(key@),
        },
{
    match settings.get(key) {
        Some(value) => Ok(value),
        None => match default_for(key) {
            Some(value) => Ok(value),
            None => {
                let mut message = "Impostazione '".to_owned();
                message.append(key);
                message.append("' non trovata");
                Err(message)
            },
        },
    }
}

/// The value of a setting, as `get_setting_internal` gives it.
pub fn get_setting(settings: &Settings, key: String) -> (r: Result<String, String>)
    ensures
        match r {
            Ok(value) => effective_setting(settings.stored(key@), key@) == Some(value@),
            Err(message) => effective_setting(settings.stored(key@), key@) is None && message@
                == unknown_setting_message(key@),
        },
{
    get_setting_internal(settings, key.as_str())
}

/// Stores a setting and confirms it.
pub fn save_setting(settings: &mut Settings, key: String, value: String) -> (r: Result<
    String,
    String,
>)
    ensures
        r is Ok,
        r->Ok_0@ == saved_setting_message(key@, value@),
        forall|k: Seq<char>|
            final(settings).stored(k) == if k == key@ {
                Some(value@)
            } else {
                old(settings).stored(k)
            },
{
    let mut message = "Impostazione '".to_owned();
    message.append(key.as_str());
    message.append("' salvata con valore '");
    message.append(value.as_str());
    message.append("'");
    settings.put(key, value);
    Ok(message)
}

} // verus!
