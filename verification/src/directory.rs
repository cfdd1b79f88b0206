//! The host directory: the ordered list of host records a probe run walks,
//! and the reading of that list out of its TOML configuration form.

use vstd::prelude::*;

verus! {

/// One configured host: where to connect and as whom. Immutable once
/// loaded for a given probe run.
#[derive(Clone, Debug)]
pub struct HostRecord {
    pub address: String,
    pub port: String,
    pub username: String,
    pub credential: String,
}

impl HostRecord {
    pub fn new(address: String, port: String, username: String, credential: String) -> (r:
        HostRecord)
        ensures
            r.address == address,
            r.port == port,
            r.username == username,
            r.credential == credential,
    {
        HostRecord { address, port, username, credential }
    }
}

/// Why loading the host directory failed; both are fatal to the load step.
#[derive(Clone, Copy, PartialEq, Eq, Structural, Debug)]
pub enum DirectoryError {
    /// The text is not a well-formed configuration document.
    Unparsable,
    /// A host entry is not a table, or lacks one of its four string fields.
    MalformedEntry,
}

#[verifier::external_type_specification]
#[verifier::external_body]
pub struct ExTable(toml_edit::Table);

/// Whether the TOML grammar accepts the text as a document.
pub uninterp spec fn toml_parses(s: Seq<char>) -> bool;

/// Whether the root table of the parsed text binds `key` at all;
/// meaningful when the grammar accepts the text.
pub uninterp spec fn toml_key_bound(s: Seq<char>, key: Seq<char>) -> bool;

/// Whether the root table of the parsed text binds `key` to a table;
/// meaningful when the grammar accepts the text.
pub uninterp spec fn toml_key_table(s: Seq<char>, key: Seq<char>) -> bool;

/// The entries of the table bound at `key` in the parsed text's root table,
/// in document order, each projected to its string-valued entries — or to
/// `None` where the entry's value is not itself a table. Meaningful when
/// the root table binds `key` to a table.
pub uninterp spec fn toml_entries_at(s: Seq<char>, key: Seq<char>) -> Seq<
    Option<Map<Seq<char>, Seq<char>>>,
>;

/// What a parsed table holds at string-valued keys: each key whose value is
/// a string, mapped to that string.
pub uninterp spec fn table_str_entries(t: toml_edit::Table) -> Map<Seq<char>, Seq<char>>;

/// A parsed table's entries in document order, each projected to the
/// string-valued entries of its value — `None` where the value is not
/// itself a table.
pub uninterp spec fn table_entries_strs(t: toml_edit::Table) -> Seq<
    Option<Map<Seq<char>, Seq<char>>>,
>;

/// How looking a key up in the root table of a text can end.
pub enum TomlKeyLookup {
    /// The text is not a well-formed document.
    Unparsed,
    /// The document's root table does not bind the key.
    Absent,
    /// The root table binds the key, but not to a table.
    NotTable,
    /// The table bound at the key.
    Found(toml_edit::Table),
}

/// Relies on `toml_edit::DocumentMut`'s `FromStr` implementation (the text
/// parses exactly when the TOML grammar accepts it, deterministically in
/// the text), `toml_edit::Table::get` and `toml_edit::Item::as_table` (the
/// navigation to the table bound at `key`). The navigation shares this one
/// wrapper with the parse so that everything it reports is a function of
/// the text alone and can be named as such. The `NotTable` case needs no
/// clause of its own: it is the one variant left when the text parses, the
/// key is bound, and no table is found.
#[verifier::external_body]
fn parse_key_table(s: &str, key: &str) -> (r: TomlKeyLookup)
    ensures
        r is Unparsed <==> !toml_parses(s@),
        toml_parses(s@) ==> (r is Absent <==> !toml_key_bound(s@, key@)),
        r is Found <==> (toml_parses(s@) && toml_key_table(s@, key@)),
        r matches TomlKeyLookup::Found(t) ==> table_entries_strs(t) == toml_entries_at(s@, key@),
{
    match s.parse::<toml_edit::DocumentMut>() {
        Err(_) => TomlKeyLookup::Unparsed,
        Ok(d) => match d.as_table().get(key) {
            None => TomlKeyLookup::Absent,
            Some(i) => match i.as_table() {
                None => TomlKeyLookup::NotTable,
                Some(t) => TomlKeyLookup::Found(t.clone()),
            },
        },
    }
}

/// Relies on `toml_edit::Table::iter` and `toml_edit::Item::as_table`: the
/// table's entries in document order, each key beside its value's table
/// form, or `None` where the value is not a table; the tables handed out
/// hold exactly what the projection of the entry says.
#[verifier::external_body]
fn table_subtables(t: &toml_edit::Table) -> (r: Vec<(String, Option<toml_edit::Table>)>)
    ensures
        r@.len() == table_entries_strs(*t).len(),
        forall|i: int| 0 <= i < r@.len() ==> ((#[trigger] r@[i]).1 is Some <==> table_entries_strs(*t)[i] is Some),
        forall|i: int| 0 <= i < r@.len() ==> ((#[trigger] r@[i]).1 matches Some(sub) ==> table_str_entries(sub) == table_entries_strs(*t)[i].unwrap()),
{
    t.iter().map(|(k, v)| (k.to_owned(), v.as_table().cloned())).collect()
}

/// Relies on `toml_edit::Table::get` and `toml_edit::Item::as_str`: the
/// string bound to `key`, exactly when the table binds `key` to a string.
#[verifier::external_body]
fn table_get_str(t: &toml_edit::Table, key: &str) -> (r: Option<String>)
    ensures
        r is Some <==> table_str_entries(*t).contains_key(key@),
        r is Some ==> r.unwrap()@ == table_str_entries(*t)[key@],
{
    t.get(key).and_then(|i| i.as_str()).map(|s| s.to_owned())
}

/// A host entry is usable when it is a table with all four string fields.
pub open spec fn entry_host_ok(t: Option<toml_edit::Table>) -> bool {
    &&& t is Some
    &&& table_str_entries(t.unwrap()).contains_key("ip"@)
    &&& table_str_entries(t.unwrap()).contains_key("port"@)
    &&& table_str_entries(t.unwrap()).contains_key("user"@)
    &&& table_str_entries(t.unwrap()).contains_key("pass"@)
}

/// A host entry's projection is usable when the entry is a table carrying
/// all four string fields.
pub open spec fn entry_strs_ok(e: Option<Map<Seq<char>, Seq<char>>>) -> bool {
    &&& e is Some
    &&& e.unwrap().contains_key("ip"@)
    &&& e.unwrap().contains_key("port"@)
    &&& e.unwrap().contains_key("user"@)
    &&& e.unwrap().contains_key("pass"@)
}

/// The record read off an entry's projection: its four string fields, in
/// the names the probe uses.
pub open spec fn host_matches_strs(h: HostRecord, e: Map<Seq<char>, Seq<char>>) -> bool {
    &&& h.address@ == e["ip"@]
    &&& h.port@ == e["port"@]
    &&& h.username@ == e["user"@]
    &&& h.credential@ == e["pass"@]
}

/// The record read off a host entry: its four string fields, in the names
/// the probe uses.
pub open spec fn host_matches_entry(h: HostRecord, t: toml_edit::Table) -> bool {
    &&& h.address@ == table_str_entries(t)["ip"@]
    &&& h.port@ == table_str_entries(t)["port"@]
    &&& h.username@ == table_str_entries(t)["user"@]
    &&& h.credential@ == table_str_entries(t)["pass"@]
}

/// Read one host entry: a record exactly when the table carries all four
/// string fields, with the record's fields equal to them.
pub fn host_from_table(t: &toml_edit::Table) -> (r: Option<HostRecord>)
    ensures
        r is Some <==> entry_host_ok(Some(*t)),
        r is Some ==> host_matches_entry(r.unwrap(), *t),
{
    let ip = table_get_str(t, "ip");
    let port = table_get_str(t, "port");
    let user = table_get_str(t, "user");
    let pass = table_get_str(t, "pass");
    match (ip, port, user, pass) {
        (Some(address), Some(p), Some(u), Some(c)) => Some(HostRecord::new(address, p, u, c)),
        _ => None,
    }
}

/// Assemble the directory out of the named host entries, in document order.
/// Succeeds exactly when every entry is a table with all four string
/// fields; the first malformed entry fails the whole load.
pub fn hosts_from_tables(entries: &Vec<(String, Option<toml_edit::Table>)>) -> (r: Result<
    Vec<HostRecord>,
    DirectoryError,
>)
    ensures
        r is Ok <==> (forall|i: int|
            0 <= i < entries@.len() ==> entry_host_ok(#[trigger] entries@[i].1)),
        r is Err ==> r == Err::<Vec<HostRecord>, DirectoryError>(DirectoryError::MalformedEntry),
        r is Ok ==> r.unwrap()@.len() == entries@.len(),
        r is Ok ==> forall|i: int|
            0 <= i < entries@.len() ==> host_matches_entry(
                r.unwrap()@[i],
                (#[trigger] entries@[i].1).unwrap(),
            ),
{
    let mut out: Vec<HostRecord> = Vec::new();
    let mut i: usize = 0;
    while i < entries.len()
        invariant
            i <= entries@.len(),
            out@.len() == i,
            forall|j: int| 0 <= j < i ==> entry_host_ok(#[trigger] entries@[j].1),
            forall|j: int|
                0 <= j < i ==> host_matches_entry(out@[j], (#[trigger] entries@[j].1).unwrap()),
        decreases entries@.len() - i,
    {
        match &entries[i].1 {
            Some(t) => {
                match host_from_table(t) {
                    Some(h) => {
                        out.push(h);
                    },
                    None => {
                        return Err(DirectoryError::MalformedEntry);
                    },
                }
            },
            None => {
                return Err(DirectoryError::MalformedEntry);
            },
        }
        i = i + 1;
    }
    Ok(out)
}

/// Load the host directory out of its textual configuration form: the
/// named entries under the `host` table, in document order. Text the
/// grammar rejects fails with `Unparsable` — exactly then — and a document
/// without a `host` table is the empty directory. Any malformed entry —
/// the `host` key not bound to a table, an entry that is not a table, or
/// an entry missing one of its four string fields — is fatal to the whole
/// load, never skipped. The result is a function of the text: it succeeds
/// exactly when every entry carries its four string fields, and then
/// returns one record per entry, in document order, with exactly those
/// fields.
pub fn parse_hosts(contents: &str) -> (r: Result<Vec<HostRecord>, DirectoryError>)
    ensures
        r == Err::<Vec<HostRecord>, DirectoryError>(DirectoryError::Unparsable) <==> !toml_parses(
            contents@,
        ),
        toml_parses(contents@) && !toml_key_bound(contents@, "host"@) ==> r is Ok
            && r.unwrap()@.len() == 0,
        toml_parses(contents@) && toml_key_bound(contents@, "host"@) && !toml_key_table(
            contents@,
            "host"@,
        ) ==> r == Err::<Vec<HostRecord>, DirectoryError>(DirectoryError::MalformedEntry),
        toml_parses(contents@) && toml_key_table(contents@, "host"@) ==> (r is Ok <==> (forall|
            i: int,
        |
            0 <= i < toml_entries_at(contents@, "host"@).len() ==> entry_strs_ok(
                #[trigger] toml_entries_at(contents@, "host"@)[i],
            ))),
        r is Ok && toml_key_table(contents@, "host"@) ==> r.unwrap()@.len() == toml_entries_at(
            contents@,
            "host"@,
        ).len(),
        r is Ok && toml_key_table(contents@, "host"@) ==> (forall|i: int|
            0 <= i < r.unwrap()@.len() ==> host_matches_strs(
                r.unwrap()@[i],
                (#[trigger] toml_entries_at(contents@, "host"@)[i]).unwrap(),
            )),
{
    match parse_key_table(contents, "host") {
        TomlKeyLookup::Unparsed => Err(DirectoryError::Unparsable),
        TomlKeyLookup::Absent => Ok(Vec::new()),
        TomlKeyLookup::NotTable => Err(DirectoryError::MalformedEntry),
        TomlKeyLookup::Found(t) => {
            let entries = table_subtables(&t);
            let ghost strs = toml_entries_at(contents@, "host"@);
            match hosts_from_tables(&entries) {
                Ok(hs) => {
                    proof {
                        assert forall|i: int|
                            0 <= i < strs.len() implies entry_strs_ok(#[trigger] strs[i]) by {
                            assert(entry_host_ok(entries@[i].1));
                            if entries@[i].1 is Some {
                                assert(table_str_entries(entries@[i].1.unwrap())
                                    == table_entries_strs(t)[i].unwrap());
                            }
                        }
                        assert forall|i: int| 0 <= i < hs@.len() implies host_matches_strs(
                            hs@[i],
                            (#[trigger] strs[i]).unwrap(),
                        ) by {
                            assert(host_matches_entry(hs@[i], (entries@[i].1).unwrap()));
                            assert(entry_host_ok(entries@[i].1));
                            assert(table_str_entries(entries@[i].1.unwrap())
                                == table_entries_strs(t)[i].unwrap());
                        }
                    }
                    Ok(hs)
                },
                Err(_) => {
                    proof {
                        if (forall|i: int| 0 <= i < strs.len() ==> entry_strs_ok(#[trigger] strs[i])) {
                            assert forall|i: int|
                                0 <= i < entries@.len() implies entry_host_ok(
                                #[trigger] entries@[i].1,
                            ) by {
                                assert(entry_strs_ok(strs[i]));
                                assert(entries@[i].1 is Some <==> table_entries_strs(t)[i]
                                    is Some);
                                assert(table_str_entries(entries@[i].1.unwrap())
                                    == table_entries_strs(t)[i].unwrap());
                            }
                            assert(false);
                        }
                    }
                    Err(DirectoryError::MalformedEntry)
                },
            }
        },
    }
}

} // verus!
