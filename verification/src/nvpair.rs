//! The `NvList` attribute store: a key/typed-value container mirroring
//! the name/value lists that the ZFS management library produces.
//!
//! A store maps string keys to typed values (boolean, unsigned 64-bit
//! integer, string, nested store, array of stores, array of unsigned
//! 64-bit integers).  Keys are unique within one store, and iteration
//! follows insertion order.  Lookups are by key and type-checked: they
//! fail when the key is absent or the stored type mismatches, and the
//! two failures are told apart.

use vstd::prelude::*;

verus! {

/// One typed value held by an [`NvList`].
pub enum NvValue {
    Bool(bool),
    U64(u64),
    Str(String),
    List(NvList),
    ListArray(Vec<NvList>),
    U64Array(Vec<u64>),
}

/// One named entry of an [`NvList`].
pub struct NvPair {
    pub name: String,
    pub value: NvValue,
}

/// An attribute store: named, typed values with unique keys.
pub struct NvList {
    pub pairs: Vec<NvPair>,
}

/// The mathematical value of an [`NvValue`].
#[verifier::ext_equal]
pub ghost enum NvValueModel {
    Bool(bool),
    U64(u64),
    Str(Seq<char>),
    List(NvListModel),
    ListArray(Seq<NvListModel>),
    U64Array(Seq<u64>),
}

/// The mathematical value of an [`NvPair`].
#[verifier::ext_equal]
pub ghost struct NvPairModel {
    pub name: Seq<char>,
    pub value: NvValueModel,
}

/// The mathematical value of an [`NvList`]: its entries in insertion order.
#[verifier::ext_equal]
pub ghost struct NvListModel {
    pub pairs: Seq<NvPairModel>,
}

pub open spec fn value_model(v: NvValue) -> NvValueModel
    decreases v,
    via value_model_dec
{
    match v {
        NvValue::Bool(b) => NvValueModel::Bool(b),
        NvValue::U64(n) => NvValueModel::U64(n),
        NvValue::Str(s) => NvValueModel::Str(s@),
        NvValue::List(l) => NvValueModel::List(list_model(l)),
        NvValue::ListArray(ls) => NvValueModel::ListArray(lists_model(ls@)),
        NvValue::U64Array(ns) => NvValueModel::U64Array(ns@),
    }
}

#[via_fn]
proof fn value_model_dec(v: NvValue) {
    broadcast use vstd::std_specs::vec::group_vec_axioms;

    match v {
        NvValue::ListArray(ls) => {
            assert(decreases_to!(v => ls));
            assert(decreases_to!(ls => ls@));
        },
        _ => {},
    }
}

pub open spec fn lists_model(ls: Seq<NvList>) -> Seq<NvListModel>
    decreases ls,
    via lists_model_dec
{
    if ls.len() == 0 {
        Seq::empty()
    } else {
        lists_model(ls.drop_last()).push(list_model(ls.last()))
    }
}

#[via_fn]
proof fn lists_model_dec(ls: Seq<NvList>) {
    if ls.len() > 0 {
        assert(decreases_to!(ls => ls.subrange(0, ls.len() - 1)));
        assert(decreases_to!(ls => ls[ls.len() - 1]));
    }
}

pub open spec fn pairs_model(ps: Seq<NvPair>) -> Seq<NvPairModel>
    decreases ps,
    via pairs_model_dec
{
    if ps.len() == 0 {
        Seq::empty()
    } else {
        pairs_model(ps.drop_last()).push(pair_model(ps.last()))
    }
}

#[via_fn]
proof fn pairs_model_dec(ps: Seq<NvPair>) {
    if ps.len() > 0 {
        assert(decreases_to!(ps => ps.subrange(0, ps.len() - 1)));
        assert(decreases_to!(ps => ps[ps.len() - 1]));
    }
}

pub open spec fn pair_model(p: NvPair) -> NvPairModel
    decreases p,
{
    NvPairModel { name: p.name@, value: value_model(p.value) }
}

pub open spec fn list_model(l: NvList) -> NvListModel
    decreases l,
    via list_model_dec
{
    NvListModel { pairs: pairs_model(l.pairs@) }
}

#[via_fn]
proof fn list_model_dec(l: NvList) {
    broadcast use vstd::std_specs::vec::group_vec_axioms;

    assert(decreases_to!(l => l.pairs));
    assert(decreases_to!(l.pairs => l.pairs@));
}

/// `pairs_model` maps the entries one for one, in order.
pub broadcast proof fn lemma_pairs_model(ps: Seq<NvPair>)
    ensures
        (#[trigger] pairs_model(ps)).len() == ps.len(),
        forall|i: int| 0 <= i < ps.len() ==> pairs_model(ps)[i] == pair_model(ps[i]),
    decreases ps.len(),
{
    if ps.len() > 0 {
        lemma_pairs_model(ps.drop_last());
    }
}

/// `lists_model` maps the stores one for one, in order.
pub broadcast proof fn lemma_lists_model(ls: Seq<NvList>)
    ensures
        (#[trigger] lists_model(ls)).len() == ls.len(),
        forall|i: int| 0 <= i < ls.len() ==> lists_model(ls)[i] == list_model(ls[i]),
    decreases ls.len(),
{
    if ls.len() > 0 {
        lemma_lists_model(ls.drop_last());
    }
}

impl View for NvValue {
    type V = NvValueModel;

    open spec fn view(&self) -> NvValueModel {
        value_model(*self)
    }
}

impl View for NvPair {
    type V = NvPairModel;

    open spec fn view(&self) -> NvPairModel {
        pair_model(*self)
    }
}

impl View for NvList {
    type V = NvListModel;

    open spec fn view(&self) -> NvListModel {
        list_model(*self)
    }
}

impl NvListModel {
    /// The value stored under `key`: the first entry with that name.
    pub open spec fn lookup(self, key: Seq<char>) -> Option<NvValueModel> {
        lookup_pairs(self.pairs, key)
    }

    pub open spec fn contains_key(self, key: Seq<char>) -> bool {
        self.lookup(key) is Some
    }

    /// The string stored under `key`, when `key` holds a string.
    pub open spec fn lookup_string(self, key: Seq<char>) -> Option<Seq<char>> {
        match self.lookup(key) {
            Some(NvValueModel::Str(s)) => Some(s),
            _ => None,
        }
    }

    pub open spec fn lookup_u64(self, key: Seq<char>) -> Option<u64> {
        match self.lookup(key) {
            Some(NvValueModel::U64(n)) => Some(n),
            _ => None,
        }
    }

    pub open spec fn lookup_bool(self, key: Seq<char>) -> Option<bool> {
        match self.lookup(key) {
            Some(NvValueModel::Bool(b)) => Some(b),
            _ => None,
        }
    }

    pub open spec fn lookup_list(self, key: Seq<char>) -> Option<NvListModel> {
        match self.lookup(key) {
            Some(NvValueModel::List(l)) => Some(l),
            _ => None,
        }
    }

    pub open spec fn lookup_list_array(self, key: Seq<char>) -> Option<Seq<NvListModel>> {
        match self.lookup(key) {
            Some(NvValueModel::ListArray(ls)) => Some(ls),
            _ => None,
        }
    }

    pub open spec fn lookup_u64_array(self, key: Seq<char>) -> Option<Seq<u64>> {
        match self.lookup(key) {
            Some(NvValueModel::U64Array(ns)) => Some(ns),
            _ => None,
        }
    }

    /// Keys are unique within one store.
    pub open spec fn unique_keys(self) -> bool {
        forall|i: int, j: int|
            0 <= i < j < self.pairs.len() ==> self.pairs[i].name != self.pairs[j].name
    }
}

pub open spec fn lookup_pairs(ps: Seq<NvPairModel>, key: Seq<char>) -> Option<NvValueModel>
    decreases ps.len(),
{
    if ps.len() == 0 {
        None
    } else if ps[0].name == key {
        Some(ps[0].value)
    } else {
        lookup_pairs(ps.drop_first(), key)
    }
}

/// A value found by `lookup_pairs` lies structurally inside the entry
/// sequence, so recursion into it terminates.
pub proof fn lemma_lookup_pairs_dec(ps: Seq<NvPairModel>, key: Seq<char>)
    ensures
        lookup_pairs(ps, key) matches Some(v) ==> decreases_to!(ps => v),
    decreases ps.len(),
{
    if ps.len() > 0 {
        if ps[0].name == key {
            assert(decreases_to!(ps => ps[0]));
            assert(decreases_to!(ps[0] => ps[0].value));
        } else {
            lemma_lookup_pairs_dec(ps.drop_first(), key);
            if lookup_pairs(ps.drop_first(), key) is Some {
                assert(decreases_to!(ps => ps.drop_first()));
            }
        }
    }
}

/// How a lookup can fail: the key is absent, or it is present but its
/// value has another type than the one asked for.
#[derive(Debug, Clone, Copy, PartialEq, Eq, Structural)]
pub enum LookupError {
    NotFound,
    WrongType,
}

/// Skipping entries whose names all miss `key` leaves the lookup result
/// unchanged.
proof fn lemma_lookup_pairs_skip(ps: Seq<NvPairModel>, key: Seq<char>, i: int)
    requires
        0 <= i <= ps.len(),
        forall|j: int| 0 <= j < i ==> ps[j].name != key,
    ensures
        lookup_pairs(ps, key) == lookup_pairs(ps.subrange(i, ps.len() as int), key),
    decreases i,
{
    if i == 0 {
        assert(ps.subrange(0, ps.len() as int) =~= ps);
    } else {
        assert(ps[0].name != key);
        lemma_lookup_pairs_skip(ps.drop_first(), key, i - 1);
        assert(ps.drop_first().subrange(i - 1, ps.drop_first().len() as int)
            =~= ps.subrange(i, ps.len() as int));
    }
}

/// The entries left after dropping the first one named `key`.
pub open spec fn spec_remove_key(ps: Seq<NvPairModel>, key: Seq<char>) -> Seq<NvPairModel>
    decreases ps.len(),
{
    if ps.len() == 0 {
        ps
    } else if ps[0].name == key {
        ps.drop_first()
    } else {
        seq![ps[0]] + spec_remove_key(ps.drop_first(), key)
    }
}

/// When no entry is named `key`, dropping leaves the entries as they
/// are.
proof fn lemma_remove_key_absent(ps: Seq<NvPairModel>, key: Seq<char>)
    requires
        forall|j: int| 0 <= j < ps.len() ==> (#[trigger] ps[j]).name != key,
    ensures
        spec_remove_key(ps, key) == ps,
    decreases ps.len(),
{
    if ps.len() > 0 {
        lemma_remove_key_absent(ps.drop_first(), key);
        assert(spec_remove_key(ps, key) =~= ps);
    }
}

/// Dropping the first entry named `key` from uniquely named entries
/// leaves uniquely named entries holding no `key` at all.
proof fn lemma_remove_key_unique(ps: Seq<NvPairModel>, key: Seq<char>)
    requires
        forall|i: int, j: int| 0 <= i < j < ps.len() ==> ps[i].name != ps[j].name,
    ensures
        forall|i: int, j: int|
            0 <= i < j < spec_remove_key(ps, key).len() ==> spec_remove_key(ps, key)[i].name
                != spec_remove_key(ps, key)[j].name,
        forall|i: int|
            0 <= i < spec_remove_key(ps, key).len() ==> (#[trigger] spec_remove_key(ps, key)[i]).name
                != key,
    decreases ps.len(),
{
    if ps.len() > 0 {
        if ps[0].name == key {
            assert forall|i: int|
                0 <= i < spec_remove_key(ps, key).len() implies (#[trigger] spec_remove_key(
                ps,
                key,
            )[i]).name != key by {
                assert(spec_remove_key(ps, key)[i] == ps[i + 1]);
            }
        } else {
            lemma_remove_key_unique(ps.drop_first(), key);
            let r = spec_remove_key(ps, key);
            let rr = spec_remove_key(ps.drop_first(), key);
            assert forall|i: int, j: int| 0 <= i < j < r.len() implies r[i].name != r[j].name by {
                assert(r[0] == ps[0]);
                if i > 0 {
                    assert(r[i] == rr[i - 1]);
                }
                assert(r[j] == rr[j - 1]);
                if i == 0 {
                    lemma_remove_key_mem(ps.drop_first(), key, j - 1);
                }
            }
            assert forall|i: int| 0 <= i < r.len() implies (#[trigger] r[i]).name != key by {
                if i > 0 {
                    assert(r[i] == rr[i - 1]);
                }
            }
        }
    }
}

/// Every entry left by `spec_remove_key` is one of the original
/// entries.
proof fn lemma_remove_key_mem(ps: Seq<NvPairModel>, key: Seq<char>, i: int)
    requires
        0 <= i < spec_remove_key(ps, key).len(),
    ensures
        exists|j: int|
            0 <= j < ps.len() && ps[j] == spec_remove_key(ps, key)[i],
    decreases ps.len(),
{
    if ps.len() > 0 {
        if ps[0].name == key {
            assert(spec_remove_key(ps, key)[i] == ps[i + 1]);
        } else {
            if i == 0 {
                assert(spec_remove_key(ps, key)[0] == ps[0]);
            } else {
                lemma_remove_key_mem(ps.drop_first(), key, i - 1);
                let j = choose|j: int|
                    0 <= j < ps.drop_first().len() && ps.drop_first()[j] == spec_remove_key(
                        ps.drop_first(),
                        key,
                    )[i - 1];
                assert(ps[j + 1] == spec_remove_key(ps, key)[i]);
            }
        }
    }
}

/// When the first entry named `key` stands at `i`, dropping it keeps
/// everything else in order.
proof fn lemma_remove_key_at(ps: Seq<NvPairModel>, key: Seq<char>, i: int)
    requires
        0 <= i < ps.len(),
        ps[i].name == key,
        forall|j: int| 0 <= j < i ==> (#[trigger] ps[j]).name != key,
    ensures
        spec_remove_key(ps, key) == ps.remove(i),
    decreases i,
{
    if i == 0 {
        assert(spec_remove_key(ps, key) =~= ps.remove(0));
    } else {
        lemma_remove_key_at(ps.drop_first(), key, i - 1);
        assert(ps.drop_first().remove(i - 1) =~= ps.remove(i).drop_first());
        assert(spec_remove_key(ps, key) =~= ps.remove(i));
    }
}

/// String equality, stated over the views.
pub fn str_eq(a: &str, b: &str) -> (r: bool)
    ensures
        r == (a@ == b@),
{
    let a_owned: String = a.to_owned();
    let b_owned: String = b.to_owned();
    a_owned == b_owned
}

impl NvPair {
    /// The entry's name.
    pub fn name(&self) -> (r: &String)
        ensures
            r@ == self@.name,
    {
        &self.name
    }

    /// The entry's value.
    pub fn value(&self) -> (r: &NvValue)
        ensures
            r@ == self@.value,
    {
        &self.value
    }

    /// The nested store this entry holds, when it holds one.
    pub fn value_nv_list(&self) -> (r: Result<&NvList, LookupError>)
        ensures
            match r {
                Ok(l) => self@.value == NvValueModel::List(l@),
                Err(e) => e == LookupError::WrongType && !(self@.value is List),
            },
    {
        match &self.value {
            NvValue::List(l) => Ok(l),
            _ => Err(LookupError::WrongType),
        }
    }
}

impl NvList {
    /// Create an empty store.
    pub fn new() -> (r: NvList)
        ensures
            r@.pairs.len() == 0,
            r@.unique_keys(),
    {
        NvList { pairs: Vec::new() }
    }

    /// The entry stored under `name`, when one is there.
    #[verifier::loop_isolation(false)]
    pub fn lookup<'a>(&'a self, name: &str) -> (r: Result<&'a NvPair, LookupError>)
        ensures
            match r {
                Ok(p) => p@.name == name@ && self@.lookup(name@) == Some(p@.value),
                Err(e) => e == LookupError::NotFound && self@.lookup(name@) is None,
            },
    {
        let ghost key: Seq<char> = name@;
        proof {
            lemma_pairs_model(self.pairs@);
        }
        let len: usize = self.pairs.len();
        let mut i: usize = 0;
        while i < len
            invariant
                len == self.pairs.len(),
                0 <= i <= len,
                forall|j: int| 0 <= j < i ==> (#[trigger] self@.pairs[j]).name != key,
            decreases len - i,
        {
            let p = &self.pairs[i];
            if str_eq(p.name.as_str(), name) {
                proof {
                    lemma_lookup_pairs_skip(self@.pairs, key, i as int);
                    assert(self@.pairs.subrange(i as int, self@.pairs.len() as int)[0]
                        == self@.pairs[i as int]);
                }
                return Ok(p);
            }
            i = i + 1;
        }
        proof {
            lemma_lookup_pairs_skip(self@.pairs, key, len as int);
            assert(self@.pairs.subrange(len as int, self@.pairs.len() as int).len() == 0);
        }
        Err(LookupError::NotFound)
    }

    /// Whether the store holds an entry named `name`.
    pub fn contains_key(&self, name: &str) -> (r: bool)
        ensures
            r == self@.contains_key(name@),
    {
        match self.lookup(name) {
            Ok(_) => true,
            Err(_) => false,
        }
    }

    /// The string stored under `name`.
    pub fn lookup_string(&self, name: &str) -> (r: Result<String, LookupError>)
        ensures
            r is Ok <==> self@.lookup_string(name@) is Some,
            r matches Ok(s) ==> Some(s@) == self@.lookup_string(name@),
            r matches Err(e) ==> (e == LookupError::NotFound <==> !self@.contains_key(name@)),
    {
        match self.lookup(name) {
            Ok(p) => match &p.value {
                NvValue::Str(s) => Ok(s.clone()),
                _ => Err(LookupError::WrongType),
            },
            Err(_) => Err(LookupError::NotFound),
        }
    }

    /// The unsigned 64-bit integer stored under `name`.
    pub fn lookup_uint64(&self, name: &str) -> (r: Result<u64, LookupError>)
        ensures
            r is Ok <==> self@.lookup_u64(name@) is Some,
            r matches Ok(n) ==> Some(n) == self@.lookup_u64(name@),
            r matches Err(e) ==> (e == LookupError::NotFound <==> !self@.contains_key(name@)),
    {
        match self.lookup(name) {
            Ok(p) => match &p.value {
                NvValue::U64(n) => Ok(*n),
                _ => Err(LookupError::WrongType),
            },
            Err(_) => Err(LookupError::NotFound),
        }
    }

    /// The nested store stored under `name`.
    pub fn lookup_nv_list<'a>(&'a self, name: &str) -> (r: Result<&'a NvList, LookupError>)
        ensures
            r is Ok <==> self@.lookup_list(name@) is Some,
            r matches Ok(l) ==> Some(l@) == self@.lookup_list(name@),
            r matches Err(e) ==> (e == LookupError::NotFound <==> !self@.contains_key(name@)),
    {
        match self.lookup(name) {
            Ok(p) => match &p.value {
                NvValue::List(l) => Ok(l),
                _ => Err(LookupError::WrongType),
            },
            Err(_) => Err(LookupError::NotFound),
        }
    }

    /// The array of stores stored under `name`.
    pub fn lookup_nv_list_array<'a>(&'a self, name: &str) -> (r: Result<
        &'a Vec<NvList>,
        LookupError,
    >)
        ensures
            r is Ok <==> self@.lookup_list_array(name@) is Some,
            r matches Ok(ls) ==> Some(lists_model(ls@)) == self@.lookup_list_array(name@),
            r matches Err(e) ==> (e == LookupError::NotFound <==> !self@.contains_key(name@)),
    {
        match self.lookup(name) {
            Ok(p) => match &p.value {
                NvValue::ListArray(ls) => Ok(ls),
                _ => Err(LookupError::WrongType),
            },
            Err(_) => Err(LookupError::NotFound),
        }
    }

    /// Create an empty store whose names stay unique.
    pub fn new_unqiue_names() -> (r: NvList)
        ensures
            r@.pairs.len() == 0,
            r@.unique_keys(),
    {
        NvList { pairs: Vec::new() }
    }

    /// Whether the store holds no entry.
    pub fn is_empty(&self) -> (r: bool)
        ensures
            r == (self@.pairs.len() == 0),
    {
        proof {
            lemma_pairs_model(self.pairs@);
        }
        self.pairs.len() == 0
    }

    /// The store's first entry, when one is there.
    pub fn first(&self) -> (r: Option<&NvPair>)
        ensures
            self@.pairs.len() > 0 ==> {
                &&& r matches Some(p)
                &&& p@ == self@.pairs[0]
            },
            self@.pairs.len() == 0 ==> r is None,
    {
        proof {
            lemma_pairs_model(self.pairs@);
        }
        if self.pairs.len() > 0 {
            Some(&self.pairs[0])
        } else {
            None
        }
    }

    /// A deep copy of the store.
    pub fn try_clone(&self) -> (r: Result<NvList, crate::libzfs_types::LibZfsError>)
        ensures
            r matches Ok(l) && l@ == self@,
    {
        Ok(clone_list(self))
    }

    /// A deep, owned copy of the store.
    pub fn try_to_owned(&self) -> (r: Result<NvList, crate::libzfs_types::LibZfsError>)
        ensures
            r matches Ok(l) && l@ == self@,
    {
        Ok(clone_list(self))
    }

    /// A cursor over the store's entries.
    pub fn iter(&self) -> (r: NvListIter<'_>)
        ensures
            r.entries() == self@.pairs,
            r.pos() == 0,
    {
        NvListIter { parent: self, pos: 0 }
    }

    /// Stores `value` under `name`: an existing entry with that name
    /// leaves, and the new entry goes to the end, as a store with
    /// unique names does.
    pub fn insert_value(&mut self, name: &str, value: NvValue)
        ensures
            final(self)@.pairs == spec_remove_key(old(self)@.pairs, name@).push(
                NvPairModel { name: name@, value: value@ },
            ),
            old(self)@.unique_keys() ==> final(self)@.unique_keys(),
    {
        let ghost key: Seq<char> = name@;
        let ghost old_pairs: Seq<NvPairModel> = self@.pairs;
        proof {
            lemma_pairs_model(self.pairs@);
        }
        let len: usize = self.pairs.len();
        let mut i: usize = 0;
        while i < len
            invariant
                0 <= i <= len,
                len == self.pairs@.len(),
                old_pairs == pairs_model(self.pairs@),
                key == name@,
                forall|j: int| 0 <= j < i ==> (#[trigger] old_pairs[j]).name != key,
            ensures
                0 <= i <= len,
                forall|j: int| 0 <= j < i ==> (#[trigger] old_pairs[j]).name != key,
                i < len ==> old_pairs[i as int].name == key,
            decreases len - i,
        {
            proof {
                lemma_pairs_model(self.pairs@);
            }
            if str_eq(self.pairs[i].name.as_str(), name) {
                break;
            }
            i = i + 1;
        }
        if i < len {
            proof {
                lemma_remove_key_at(old_pairs, key, i as int);
            }
            self.pairs.remove(i);
            proof {
                lemma_pairs_model(self.pairs@);
                assert(pairs_model(self.pairs@) =~= old_pairs.remove(i as int));
            }
        } else {
            proof {
                lemma_remove_key_absent(old_pairs, key);
            }
        }
        let ghost removed: Seq<NvPairModel> = spec_remove_key(old_pairs, key);
        let ghost before_push: Seq<NvPair> = self.pairs@;
        let ghost value_m: NvValueModel = value@;
        let owned_name: String = name.to_owned();
        let new_pair = NvPair { name: owned_name, value };
        let ghost new_m: NvPairModel = new_pair@;
        self.pairs.push(new_pair);
        proof {
            assert(new_m == (NvPairModel { name: key, value: value_m }));
            assert(self.pairs@.drop_last() =~= before_push);
            assert(pairs_model(self.pairs@) =~= removed.push(new_m));
            if old(self)@.unique_keys() {
                lemma_remove_key_unique(old_pairs, key);
            }
        }
    }

    /// The array of unsigned 64-bit integers stored under `name`.
    pub fn lookup_uint64_array<'a>(&'a self, name: &str) -> (r: Result<&'a Vec<u64>, LookupError>)
        ensures
            r is Ok <==> self@.lookup_u64_array(name@) is Some,
            r matches Ok(ns) ==> Some(ns@) == self@.lookup_u64_array(name@),
            r matches Err(e) ==> (e == LookupError::NotFound <==> !self@.contains_key(name@)),
    {
        match self.lookup(name) {
            Ok(p) => match &p.value {
                NvValue::U64Array(ns) => Ok(ns),
                _ => Err(LookupError::WrongType),
            },
            Err(_) => Err(LookupError::NotFound),
        }
    }
}

/// A deep copy of a value, equal to the original in its model.
fn clone_value(v: &NvValue) -> (r: NvValue)
    ensures
        r@ == v@,
    decreases *v,
{
    match v {
        NvValue::Bool(b) => NvValue::Bool(*b),
        NvValue::U64(n) => NvValue::U64(*n),
        NvValue::Str(s) => NvValue::Str(s.clone()),
        NvValue::List(l) => NvValue::List(clone_list(l)),
        NvValue::ListArray(ls) => {
            let mut out: Vec<NvList> = Vec::new();
            let n: usize = ls.len();
            let mut i: usize = 0;
            proof {
                lemma_lists_model(ls@);
                assert(decreases_to!(*v => *ls));
                assert(decreases_to!(*ls => ls@));
            }
            while i < n
                invariant
                    0 <= i <= n,
                    n == ls@.len(),
                    out@.len() == i,
                    lists_model(ls@).len() == n,
                    forall|j: int|
                        0 <= j < i ==> list_model(#[trigger] out@[j]) == lists_model(ls@)[j],
                    decreases_to!(*v => ls@),
                decreases n - i,
            {
                proof {
                    lemma_lists_model(ls@);
                    assert(decreases_to!(ls@ => ls@[i as int]));
                }
                let c = clone_list(&ls[i]);
                out.push(c);
                i = i + 1;
            }
            proof {
                lemma_lists_model(out@);
                assert(lists_model(out@) =~= lists_model(ls@));
            }
            NvValue::ListArray(out)
        },
        NvValue::U64Array(ns) => {
            let mut out: Vec<u64> = Vec::new();
            let n: usize = ns.len();
            let mut i: usize = 0;
            while i < n
                invariant
                    0 <= i <= n,
                    n == ns@.len(),
                    out@ =~= ns@.take(i as int),
                decreases n - i,
            {
                out.push(ns[i]);
                proof {
                    assert(out@ =~= ns@.take(i + 1));
                }
                i = i + 1;
            }
            proof {
                assert(ns@.take(n as int) =~= ns@);
            }
            NvValue::U64Array(out)
        },
    }
}

/// A deep copy of a store, equal to the original in its model.
fn clone_list(l: &NvList) -> (r: NvList)
    ensures
        r@ == l@,
    decreases *l,
{
    let mut pairs: Vec<NvPair> = Vec::new();
    let n: usize = l.pairs.len();
    let mut i: usize = 0;
    proof {
        lemma_pairs_model(l.pairs@);
    }
    while i < n
        invariant
            0 <= i <= n,
            n == l.pairs@.len(),
            pairs@.len() == i,
            pairs_model(l.pairs@).len() == n,
            forall|j: int|
                0 <= j < i ==> pair_model(#[trigger] pairs@[j]) == pairs_model(l.pairs@)[j],
            decreases_to!(*l => l.pairs@),
        decreases n - i,
    {
        proof {
            lemma_pairs_model(l.pairs@);
            assert(decreases_to!(l.pairs@ => l.pairs@[i as int]));
            assert(decreases_to!(l.pairs@[i as int] => l.pairs@[i as int].value));
        }
        let p = &l.pairs[i];
        let value = clone_value(&p.value);
        let name = p.name.clone();
        pairs.push(NvPair { name, value });
        i = i + 1;
    }
    proof {
        lemma_pairs_model(pairs@);
        assert(pairs_model(pairs@) =~= pairs_model(l.pairs@));
    }
    NvList { pairs }
}

/// A borrowing cursor over a store's entries, in insertion order.
pub struct NvListIter<'a> {
    pub parent: &'a NvList,
    pub pos: usize,
}

impl<'a> NvListIter<'a> {
    pub open spec fn entries(self) -> Seq<NvPairModel> {
        self.parent@.pairs
    }

    pub open spec fn pos(self) -> int {
        self.pos as int
    }

    /// The next entry, advancing the cursor.
    pub fn next(&mut self) -> (r: Option<&'a NvPair>)
        ensures
            old(self).pos() < old(self).entries().len() ==> {
                &&& r matches Some(p) && p@ == old(self).entries()[old(self).pos()]
                &&& final(self).pos() == old(self).pos() + 1
            },
            old(self).pos() >= old(self).entries().len() ==> {
                &&& r is None
                &&& final(self).pos() == old(self).pos()
            },
            final(self).entries() == old(self).entries(),
    {
        proof {
            lemma_pairs_model(self.parent.pairs@);
        }
        if self.pos < self.parent.pairs.len() {
            let out = &self.parent.pairs[self.pos];
            self.pos = self.pos + 1;
            Some(out)
        } else {
            None
        }
    }
}

/// How a store is rendered by the encoding framework: the native
/// in-memory layout, or the portable XDR layout.
pub enum NvEncoding {
    Native,
    Xdr,
}

impl NvEncoding {
    #[allow(dead_code)]
    fn as_raw(&self) -> (r: i32)
        ensures
            r == match *self {
                NvEncoding::Native => 0int,
                NvEncoding::Xdr => 1int,
            },
    {
        match self {
            NvEncoding::Native => 0,
            NvEncoding::Xdr => 1,
        }
    }
}

/// A value that can be stored into an [`NvList`] under a name.
pub trait NvEncode {
    /// The model of the stored value.
    spec fn nv_model(&self) -> NvValueModel;

    /// Stores the value under `name`, replacing any entry of that
    /// name, the new entry going to the end.
    fn insert(&self, name: &str, nv: &mut NvList) -> (r: Result<(), crate::libzfs_types::LibZfsError>)
        ensures
            r is Ok,
            final(nv)@.pairs == spec_remove_key(old(nv)@.pairs, name@).push(
                NvPairModel { name: name@, value: self.nv_model() },
            ),
            old(nv)@.unique_keys() ==> final(nv)@.unique_keys(),
    ;
}

impl NvEncode for bool {
    open spec fn nv_model(&self) -> NvValueModel {
        NvValueModel::Bool(*self)
    }

    fn insert(&self, name: &str, nv: &mut NvList) -> (r: Result<
        (),
        crate::libzfs_types::LibZfsError,
    >) {
        nv.insert_value(name, NvValue::Bool(*self));
        Ok(())
    }
}

impl NvEncode for u64 {
    open spec fn nv_model(&self) -> NvValueModel {
        NvValueModel::U64(*self)
    }

    fn insert(&self, name: &str, nv: &mut NvList) -> (r: Result<
        (),
        crate::libzfs_types::LibZfsError,
    >) {
        nv.insert_value(name, NvValue::U64(*self));
        Ok(())
    }
}

impl NvEncode for String {
    open spec fn nv_model(&self) -> NvValueModel {
        NvValueModel::Str(self@)
    }

    fn insert(&self, name: &str, nv: &mut NvList) -> (r: Result<
        (),
        crate::libzfs_types::LibZfsError,
    >) {
        nv.insert_value(name, NvValue::Str(self.clone()));
        Ok(())
    }
}

impl NvEncode for NvList {
    open spec fn nv_model(&self) -> NvValueModel {
        NvValueModel::List(self@)
    }

    fn insert(&self, name: &str, nv: &mut NvList) -> (r: Result<
        (),
        crate::libzfs_types::LibZfsError,
    >) {
        nv.insert_value(name, NvValue::List(clone_list(self)));
        Ok(())
    }
}

} // verus!
