//! The table of options that a core exposes: registration in the legacy
//! and the modern format, lookup, update, and tracking of changes.

use crate::portable::first_occurrence;
use crate::portable::occurs_at;
use crate::portable::split_on;
use crate::portable::str_eq;
use crate::portable::str_views;
use crate::portable::PStr;
use crate::portable::PString;
use vstd::prelude::*;

verus! {

/// What an option holds: its key, its current value, what it is for, the
/// values it can take, each with the label to show for it, and whether it
/// is shown.
pub struct RetroVarView {
    pub key: Seq<char>,
    pub value: Seq<char>,
    pub description: Seq<char>,
    pub extra_desc: Seq<char>,
    pub values: Seq<(Seq<char>, Seq<char>)>,
    pub visible: bool,
}

/// The list without the later copies of an item that occurs more than once.
pub open spec fn dedup(s: Seq<Seq<char>>) -> Seq<Seq<char>>
    decreases s.len(),
{
    if s.len() == 0 {
        seq![]
    } else {
        let d = dedup(s.drop_last());
        if d.contains(s.last()) {
            d
        } else {
            d.push(s.last())
        }
    }
}

/// Each value paired with itself as its label.
pub open spec fn self_labelled(s: Seq<Seq<char>>) -> Seq<(Seq<char>, Seq<char>)> {
    Seq::new(s.len(), |i: int| (s[i], s[i]))
}

/// Each value with its label, which is the value itself where none is given.
pub open spec fn labelled(vals: Seq<(Seq<char>, Option<Seq<char>>)>) -> Seq<
    (Seq<char>, Seq<char>),
> {
    Seq::new(
        vals.len(),
        |i: int|
            (
                vals[i].0,
                match vals[i].1 {
                    Some(l) => l,
                    None => vals[i].0,
                },
            ),
    )
}

impl RetroVarView {
    /// Whether `v` is one of the values that the option can take.
    pub open spec fn allows(self, v: Seq<char>) -> bool {
        exists|i: int| 0 <= i < self.values.len() && (#[trigger] self.values[i]).0 == v
    }

    /// The values that the option can take, in order.
    pub open spec fn allowed(self) -> Seq<Seq<char>> {
        Seq::new(self.values.len(), |i: int| self.values[i].0)
    }

    /// The option with another current value.
    pub open spec fn with_value(self, v: Seq<char>) -> RetroVarView {
        RetroVarView { value: v, ..self }
    }

    /// The option shown or hidden.
    pub open spec fn with_visible(self, visible: bool) -> RetroVarView {
        RetroVarView { visible, ..self }
    }

    /// The option that a legacy definition describes: the description up to
    /// the first `"; "`, then the values between `|`. The first value is the
    /// current one, and a value listed twice is kept once. A definition
    /// without `"; "` describes nothing.
    pub open spec fn legacy(key: Seq<char>, descr: Seq<char>) -> Option<RetroVarView> {
        if exists|i: int| occurs_at(descr, "; "@, i) {
            let i = choose|i: int| first_occurrence(descr, "; "@, i);
            let pieces = split_on(descr.subrange(i + "; "@.len(), descr.len() as int), '|');
            Some(
                RetroVarView {
                    key,
                    value: pieces[0],
                    description: descr.subrange(0, i),
                    extra_desc: Seq::empty(),
                    values: self_labelled(dedup(pieces)),
                    visible: true,
                },
            )
        } else {
            None
        }
    }

    /// The option that a modern definition describes. The current value is
    /// the default where one is given, else the first value, else empty.
    pub open spec fn modern(
        key: Seq<char>,
        descr: Seq<char>,
        info: Seq<char>,
        vals: Seq<(Seq<char>, Option<Seq<char>>)>,
        default: Option<Seq<char>>,
    ) -> RetroVarView {
        RetroVarView {
            key,
            value: match default {
                Some(d) => d,
                None => if vals.len() > 0 {
                    vals[0].0
                } else {
                    Seq::empty()
                },
            },
            description: descr,
            extra_desc: info,
            values: labelled(vals),
            visible: true,
        }
    }
}

/// The texts of a list of value and label pairs.
pub open spec fn pair_views(v: Seq<(PString, PString)>) -> Seq<(Seq<char>, Seq<char>)> {
    Seq::new(v.len(), |i: int| (v[i].0@, v[i].1@))
}

/// The texts of a list of values with optional labels.
pub open spec fn value_views(v: Seq<(PStr, Option<PStr>)>) -> Seq<
    (Seq<char>, Option<Seq<char>>),
> {
    Seq::new(
        v.len(),
        |i: int|
            (
                v[i].0@,
                match v[i].1 {
                    Some(l) => Some(l@),
                    None => None,
                },
            ),
    )
}

/// The texts of a list of portable strings.
pub open spec fn pstring_views(v: Seq<PString>) -> Seq<Seq<char>> {
    Seq::new(v.len(), |i: int| v[i]@)
}

/// An option of a core.
pub struct RetroVar {
    key: String,
    value: PString,  // Handed to the core as a C string
    description: String,
    extra_desc: String,
    values: Vec<(PString, PString)>,
    visible: bool,
}

impl View for RetroVar {
    type V = RetroVarView;

    closed spec fn view(&self) -> RetroVarView {
        RetroVarView {
            key: self.key@,
            value: self.value@,
            description: self.description@,
            extra_desc: self.extra_desc@,
            values: pair_views(self.values@),
            visible: self.visible,
        }
    }
}

/// Two first occurrences of a text in another are the same position.
pub proof fn lemma_first_occurrence_unique(hay: Seq<char>, needle: Seq<char>, i: int, j: int)
    requires
        first_occurrence(hay, needle, i),
        first_occurrence(hay, needle, j),
    ensures
        i == j,
{
}

/// Whether `x` is among the first `n` portable strings of `v`.
fn contains_text(v: &Vec<PString>, x: &PString) -> (r: bool)
    ensures
        r == pstring_views(v@).contains(x@),
{
    let mut i: usize = 0;
    while i < v.len()
        invariant
            i <= v@.len(),
            forall|j: int| 0 <= j < i ==> pstring_views(v@)[j] != x@,
        decreases v@.len() - i,
    {
        if v[i].equals(x) {
            assert(pstring_views(v@)[i as int] == x@);
            return true;
        }
        i += 1;
    }
    false
}

impl RetroVar {
    pub fn new_v1(
        key: &PStr,
        descr: &PStr,
        info: &PStr,
        vals: &[(PStr, Option<PStr>)],
        default: Option<&PStr>,
    ) -> (r: Self)
        ensures
            r@ == RetroVarView::modern(
                key@,
                descr@,
                info@,
                value_views(vals@),
                match default {
                    Some(d) => Some(d@),
                    None => None,
                },
            ),
    {
        let key = key.to_string();
        let description = descr.to_string();
        let extra_desc = info.to_string();

        let mut values: Vec<(PString, PString)> = Vec::new();
        let mut i: usize = 0;
        while i < vals.len()
            invariant
                i <= vals@.len(),
                values@.len() == i,
                pair_views(values@) == labelled(value_views(vals@)).subrange(0, i as int),
            decreases vals@.len() - i,
        {
            let ghost before = pair_views(values@);
            let value = PString::from_pstr(&vals[i].0);
            let vdesc = match &vals[i].1 {
                Some(p) => PString::from_pstr(p),
                None => value.clone(),
            };
            assert((value@, vdesc@) == labelled(value_views(vals@))[i as int]);
            values.push((value, vdesc));
            assert(pair_views(values@) =~= before.push((value@, vdesc@)));
            assert(pair_views(values@) =~= labelled(value_views(vals@)).subrange(0, i + 1));
            i += 1;
        }
        assert(pair_views(values@) =~= labelled(value_views(vals@)));

        let value = match default {
            Some(d) => PString::from_pstr(d),
            None => if values.len() > 0 {
                assert(pair_views(values@)[0] == labelled(value_views(vals@))[0]);
                values[0].0.clone()
            } else {
                PString::empty()
            },
        };

        RetroVar { key, value, description, extra_desc, values, visible: true }
    }

    pub fn new_v0(key: &PStr, descr: &PStr) -> (r: Option<Self>)
        ensures
            match r {
                Some(v) => RetroVarView::legacy(key@, descr@) == Some(v@),
                None => RetroVarView::legacy(key@, descr@) is None,
            },
    {
        let key_text = key.to_string();
        match descr.split_once("; ") {
            Some((head, tail)) => {
                proof {
                    assert(first_occurrence(descr@, "; "@, head@.len() as int));
                    assert(occurs_at(descr@, "; "@, head@.len() as int));
                    let i = choose|i: int| first_occurrence(descr@, "; "@, i);
                    lemma_first_occurrence_unique(descr@, "; "@, i, head@.len() as int);
                }
                let description = head.to_string();
                let vals = tail.split('|');
                let ghost pieces = split_on(tail@, '|');
                assert(str_views(vals@)[0] == vals@[0]@);
                let value = match PString::from_str(vals[0]) {
                    Ok(v) => v,
                    Err(_) => {
                        assert(false);
                        PString::empty()
                    },
                };
                let mut values: Vec<PString> = Vec::new();
                let mut i: usize = 0;
                while i < vals.len()
                    invariant
                        i <= vals@.len(),
                        str_views(vals@) == pieces,
                        forall|k: int| 0 <= k < vals@.len() ==> !(#[trigger] vals@[k])@.contains('\0'),
                        pstring_views(values@) == dedup(pieces.subrange(0, i as int)),
                    decreases vals@.len() - i,
                {
                    assert(str_views(vals@)[i as int] == vals@[i as int]@);
                    let cstr = match PString::from_str(vals[i]) {
                        Ok(v) => v,
                        Err(_) => {
                            assert(false);
                            PString::empty()
                        },
                    };
                    let ghost before = pstring_views(values@);
                    assert(pieces.subrange(0, i + 1).drop_last() == pieces.subrange(0, i as int));
                    assert(pieces.subrange(0, i + 1).last() == cstr@);
                    if !contains_text(&values, &cstr) {
                        values.push(cstr);
                        assert(pstring_views(values@) =~= before.push(cstr@));
                    }
                    i += 1;
                }
                assert(pieces.subrange(0, i as int) == pieces);

                let mut pairs: Vec<(PString, PString)> = Vec::new();
                let mut j: usize = 0;
                while j < values.len()
                    invariant
                        j <= values@.len(),
                        pairs@.len() == j,
                        pair_views(pairs@) == self_labelled(pstring_views(values@)).subrange(
                            0,
                            j as int,
                        ),
                    decreases values@.len() - j,
                {
                    let ghost before = pair_views(pairs@);
                    let a = values[j].clone();
                    let b = values[j].clone();
                    assert(a@ == pstring_views(values@)[j as int]);
                    pairs.push((a, b));
                    assert(pair_views(pairs@) =~= before.push((a@, b@)));
                    assert(pair_views(pairs@) =~= self_labelled(pstring_views(values@)).subrange(
                        0,
                        j + 1,
                    ));
                    j += 1;
                }
                assert(pair_views(pairs@) =~= self_labelled(pstring_views(values@)));

                let extra_desc = String::new();
                let var = RetroVar {
                    key: key_text,
                    value,
                    description,
                    extra_desc,
                    values: pairs,
                    visible: true,
                };
                Some(var)
            },
            None => None,
        }
    }

    pub fn key(&self) -> (k: &str)
        ensures
            k@ == self@.key,
    {
        self.key.as_str()
    }

    pub fn value(&self) -> (v: &str)
        ensures
            v@ == self@.value,
    {
        self.value.to_str()
    }

    /// The current value in the form that is handed to the core.
    pub fn value_pstring(&self) -> (v: &PString)
        ensures
            v@ == self@.value,
    {
        &self.value
    }

    pub fn description(&self) -> (d: &str)
        ensures
            d@ == self@.description,
    {
        self.description.as_str()
    }

    pub fn extra_desc(&self) -> (d: &str)
        ensures
            d@ == self@.extra_desc,
    {
        self.extra_desc.as_str()
    }

    /// The values that the option can take, each with its label.
    pub fn values(&self) -> (v: &Vec<(PString, PString)>)
        ensures
            pair_views(v@) == self@.values,
    {
        &self.values
    }

    pub fn visible(&self) -> (v: bool)
        ensures
            v == self@.visible,
    {
        self.visible
    }

    /// Whether `value` is one of the values that the option can take.
    pub fn allows(&self, value: &PString) -> (r: bool)
        ensures
            r == self@.allows(value@),
    {
        let mut i: usize = 0;
        while i < self.values.len()
            invariant
                i <= self.values@.len(),
                forall|j: int| 0 <= j < i ==> (#[trigger] self@.values[j]).0 != value@,
            decreases self.values@.len() - i,
        {
            if self.values[i].0.equals(value) {
                assert(self@.values[i as int].0 == value@);
                return true;
            }
            i += 1;
        }
        false
    }

    /// Takes `value` as the current value if the option can take it, and
    /// says whether it did.
    pub fn update(&mut self, value: &PStr) -> (r: bool)
        ensures
            r == old(self)@.allows(value@),
            final(self)@ == if r {
                old(self)@.with_value(value@)
            } else {
                old(self)@
            },
    {
        let cstr = PString::from_pstr(value);
        if self.allows(&cstr) {
            self.value = cstr;
            true
        } else {
            false
        }
    }

    /// Shows or hides the option.
    pub fn set_visible(&mut self, visible: bool)
        ensures
            final(self)@ == old(self)@.with_visible(visible),
    {
        self.visible = visible;
    }
}


/// A list without later copies holds nothing twice, and holds exactly what
/// the list holds.
pub proof fn lemma_dedup(s: Seq<Seq<char>>)
    ensures
        dedup(s).no_duplicates(),
        forall|x: Seq<char>| dedup(s).contains(x) <==> s.contains(x),
        s.len() > 0 ==> dedup(s).len() > 0 && dedup(s)[0] == s[0],
    decreases s.len(),
{
    if s.len() > 0 {
        let init = s.drop_last();
        let d = dedup(init);
        lemma_dedup(init);
        assert forall|x: Seq<char>| dedup(s).contains(x) <==> s.contains(x) by {
            assert(d.contains(x) <==> init.contains(x));
            if s.contains(x) {
                let i = choose|i: int| 0 <= i < s.len() && s[i] == x;
                if i < s.len() - 1 {
                    assert(init[i] == x);
                    assert(init.contains(x));
                    if !d.contains(s.last()) {
                        let j = choose|j: int| 0 <= j < d.len() && d[j] == x;
                        assert(d.push(s.last())[j] == x);
                    }
                } else {
                    if !d.contains(s.last()) {
                        assert(d.push(s.last())[d.len() as int] == x);
                    }
                }
            }
            if dedup(s).contains(x) {
                let j = choose|j: int| 0 <= j < dedup(s).len() && dedup(s)[j] == x;
                if d.contains(s.last()) || j < d.len() {
                    assert(d[j] == x);
                    assert(d.contains(x));
                    assert(init.contains(x));
                    let i = choose|i: int| 0 <= i < init.len() && init[i] == x;
                    assert(s[i] == x);
                } else {
                    assert(s[s.len() - 1] == x);
                }
            }
        }
        if init.len() == 0 {
            assert(d =~= Seq::empty());
        }
    }
}

/// The first piece of a text that starts with `first` and goes on, if at
/// all, with the separator, is `first`, where `first` holds no separator.
pub proof fn lemma_split_on_first(first: Seq<char>, others: Seq<char>, c: char)
    requires
        !first.contains(c),
        others.len() == 0 || others[0] == c,
    ensures
        split_on(first + others, c).len() > 0,
        split_on(first + others, c)[0] == first,
{
    let s = first + others;
    s.index_of_first_ensures(c);
    if others.len() == 0 {
        assert(s =~= first);
    } else {
        assert(s[first.len() as int] == c);
        let k = s.index_of_first(c)->0;
        if k < first.len() {
            assert(first[k] == c);
        }
        assert(s.subrange(0, first.len() as int) =~= first);
    }
}

/// A legacy definition `"description; v1|v2|..."` gives an option whose
/// current value is `v1`, whose description is the text before the first
/// `"; "`, which can take its current value, and whose list of values
/// holds nothing twice.
pub proof fn law_legacy_definition(
    key: Seq<char>,
    description: Seq<char>,
    first: Seq<char>,
    others: Seq<char>,
)
    requires
        first_occurrence(description + "; "@ + first + others, "; "@, description.len() as int),
        !first.contains('|'),
        others.len() == 0 || others[0] == '|',
    ensures
        RetroVarView::legacy(key, description + "; "@ + first + others) matches Some(v) && {
            &&& v.key == key
            &&& v.value == first
            &&& v.description == description
            &&& v.allows(first)
            &&& v.allowed().no_duplicates()
        },
{
    let sep = "; "@;
    let descr = description + sep + first + others;
    let n = description.len() as int;
    assert(occurs_at(descr, sep, n));
    let i = choose|i: int| first_occurrence(descr, sep, i);
    lemma_first_occurrence_unique(descr, sep, i, n);
    let rest = descr.subrange(i + sep.len(), descr.len() as int);
    assert(rest =~= first + others);
    lemma_split_on_first(first, others, '|');
    let pieces = split_on(rest, '|');
    lemma_dedup(pieces);
    let v = RetroVarView::legacy(key, descr)->0;
    assert(descr.subrange(0, i) =~= description);
    assert(v.values[0].0 == first);
    assert(v.allowed() =~= dedup(pieces));
}

/// A legacy definition without `"; "` describes no option.
pub proof fn law_legacy_malformed(key: Seq<char>, descr: Seq<char>)
    requires
        forall|i: int| !occurs_at(descr, "; "@, i),
    ensures
        RetroVarView::legacy(key, descr) is None,
{
}

/// An update of a registered option is accepted exactly when the option
/// can take the value. A refused update leaves the table as it was, and an
/// accepted one changes the current value of that option and nothing else
/// of it, and no other option.
pub proof fn law_set_val(t: VarsView, key: Seq<char>, value: Seq<char>)
    ensures
        t.table.contains_key(key) ==> (t.accepts(key, value) <==> t.table[key].allows(value)),
        !t.table.contains_key(key) ==> !t.accepts(key, value),
        !t.accepts(key, value) ==> t.set_val(key, value) == t,
        t.accepts(key, value) ==> {
            &&& t.set_val(key, value).table.dom() == t.table.dom()
            &&& t.set_val(key, value).table[key] == t.table[key].with_value(value)
            &&& t.set_val(key, value).table[key].allows(value)
            &&& forall|k: Seq<char>|
                k != key && t.table.contains_key(k) ==> t.set_val(key, value).table[k]
                    == t.table[k]
        },
{
    if t.accepts(key, value) {
        assert(t.set_val(key, value).table.dom() =~= t.table.dom());
        let i = choose|i: int| 0 <= i < t.table[key].values.len() && (#[trigger] t.table[key].values[i]).0 == value;
        assert(t.table[key].with_value(value).values[i].0 == value);
    }
}

/// A registration that the table takes and an accepted update mark the
/// table as changed; asking for the mark clears it, so that a second
/// question is answered with no; and what changes nothing leaves the mark
/// as it was: a registration that is dropped, be it malformed or for a key
/// that is taken, a refused update, and a change of visibility.
pub proof fn law_dirty(
    t: VarsView,
    var: Option<RetroVarView>,
    key: Seq<char>,
    value: Seq<char>,
    visible: bool,
)
    ensures
        t.gains(var) ==> t.add(var).dirty,
        !t.gains(var) ==> t.add(var) == t,
        t.accepts(key, value) ==> t.set_val(key, value).dirty,
        !t.accepts(key, value) ==> t.set_val(key, value) == t,
        t.set_visible(key, visible).dirty == t.dirty,
        !t.taken().dirty,
        t.taken().table == t.table,
        t.taken().taken() == t.taken(),
        !t.gains(var) ==> !t.taken().add(var).dirty,
        !t.accepts(key, value) ==> !t.taken().set_val(key, value).dirty,
        t.add(var).taken().add(var) == t.add(var).taken(),
{
}


/// What the table holds: the options by key, and whether anything changed
/// since the core last asked.
pub struct VarsView {
    pub table: Map<Seq<char>, RetroVarView>,
    pub dirty: bool,
}

impl VarsView {
    /// Whether a registration gives the table a new option: the
    /// definition describes one, and its key is not taken.
    pub open spec fn gains(self, var: Option<RetroVarView>) -> bool {
        var matches Some(v) && !self.table.contains_key(v.key)
    }

    /// The table after a registration. Where the table gains the option
    /// it counts as changed. An option whose key is taken is dropped, as
    /// the first registration wins, and a definition that describes
    /// nothing adds nothing: neither changes anything.
    pub open spec fn add(self, var: Option<RetroVarView>) -> VarsView {
        match var {
            Some(v) => if self.table.contains_key(v.key) {
                self
            } else {
                VarsView { table: self.table.insert(v.key, v), dirty: true }
            },
            None => self,
        }
    }

    /// Whether an update of `key` to `value` is accepted: the option is
    /// registered and can take the value.
    pub open spec fn accepts(self, key: Seq<char>, value: Seq<char>) -> bool {
        self.table.contains_key(key) && self.table[key].allows(value)
    }

    /// The table after an update of `key` to `value`: changed only where
    /// the update is accepted.
    pub open spec fn set_val(self, key: Seq<char>, value: Seq<char>) -> VarsView {
        if self.accepts(key, value) {
            VarsView {
                table: self.table.insert(key, self.table[key].with_value(value)),
                dirty: true,
            }
        } else {
            self
        }
    }

    /// The table after showing or hiding `key`. The table does not count as
    /// changed by this.
    pub open spec fn set_visible(self, key: Seq<char>, visible: bool) -> VarsView {
        if self.table.contains_key(key) {
            VarsView {
                table: self.table.insert(key, self.table[key].with_visible(visible)),
                ..self
            }
        } else {
            self
        }
    }

    /// The table after the core has asked whether anything changed.
    pub open spec fn taken(self) -> VarsView {
        VarsView { dirty: false, ..self }
    }
}

/// The views of a list of options.
pub open spec fn var_views(s: Seq<RetroVar>) -> Seq<RetroVarView> {
    Seq::new(s.len(), |i: int| s[i]@)
}

/// No two options of the list share a key.
pub open spec fn unique_keys(s: Seq<RetroVarView>) -> bool {
    forall|i: int, j: int| 0 <= i < j < s.len() ==> s[i].key != s[j].key
}

/// The options of a list by key; of two with one key, the later one.
pub open spec fn table_of(s: Seq<RetroVarView>) -> Map<Seq<char>, RetroVarView>
    decreases s.len(),
{
    if s.len() == 0 {
        Map::empty()
    } else {
        table_of(s.drop_last()).insert(s.last().key, s.last())
    }
}

/// Some option of the list has the key `k`.
pub open spec fn has_key(s: Seq<RetroVarView>, k: Seq<char>) -> bool {
    exists|i: int| 0 <= i < s.len() && (#[trigger] s[i]).key == k
}

/// The keys of the table are the keys of the list.
pub proof fn lemma_table_keys(s: Seq<RetroVarView>, k: Seq<char>)
    ensures
        table_of(s).contains_key(k) <==> has_key(s, k),
    decreases s.len(),
{
    if s.len() > 0 {
        let init = s.drop_last();
        lemma_table_keys(init, k);
        if has_key(init, k) {
            let i = choose|i: int| 0 <= i < init.len() && (#[trigger] init[i]).key == k;
            assert(s[i].key == k);
        }
        if has_key(s, k) {
            let i = choose|i: int| 0 <= i < s.len() && (#[trigger] s[i]).key == k;
            if i < s.len() - 1 {
                assert(init[i].key == k);
            }
        } else {
            assert(s[s.len() - 1].key != k);
        }
    }
}

/// With unique keys, each option of the list is the one that the table has
/// for its key.
pub proof fn lemma_table_entry(s: Seq<RetroVarView>, i: int)
    requires
        unique_keys(s),
        0 <= i < s.len(),
    ensures
        table_of(s).contains_key(s[i].key),
        table_of(s)[s[i].key] == s[i],
    decreases s.len(),
{
    let init = s.drop_last();
    if i < s.len() - 1 {
        assert(unique_keys(init)) by {
            assert forall|a: int, b: int| 0 <= a < b < init.len() implies init[a].key
                != init[b].key by {
                assert(s[a].key != s[b].key);
            }
        }
        lemma_table_entry(init, i);
        assert(s[i].key != s[s.len() - 1].key);
        assert(init[i] == s[i]);
    }
}

/// Replacing an option of a list by one with the same key replaces it in
/// the table.
pub proof fn lemma_table_update(s: Seq<RetroVarView>, i: int, v: RetroVarView)
    requires
        unique_keys(s),
        0 <= i < s.len(),
        v.key == s[i].key,
    ensures
        unique_keys(s.update(i, v)),
        table_of(s.update(i, v)) == table_of(s).insert(v.key, v),
    decreases s.len(),
{
    let t = s.update(i, v);
    assert(unique_keys(t)) by {
        assert forall|a: int, b: int| 0 <= a < b < t.len() implies t[a].key != t[b].key by {
            assert(s[a].key != s[b].key);
        }
    }
    let init = s.drop_last();
    assert(unique_keys(init)) by {
        assert forall|a: int, b: int| 0 <= a < b < init.len() implies init[a].key
            != init[b].key by {
            assert(s[a].key != s[b].key);
        }
    }
    if i == s.len() - 1 {
        assert(t.drop_last() == init);
        assert(table_of(t) =~= table_of(s).insert(v.key, v));
    } else {
        lemma_table_update(init, i, v);
        assert(t.drop_last() == init.update(i, v));
        assert(t.last() == s.last());
        assert(s[i].key != s[s.len() - 1].key);
        assert(table_of(t) =~= table_of(s).insert(v.key, v));
    }
}

/// The options that a core has registered.
pub struct RetroVars {
    vars: Vec<RetroVar>,
    dirty: bool,
}

impl View for RetroVars {
    type V = VarsView;

    closed spec fn view(&self) -> VarsView {
        VarsView { table: table_of(var_views(self.vars@)), dirty: self.dirty }
    }
}

impl RetroVars {
    #[verifier::type_invariant]
    closed spec fn inv(self) -> bool {
        unique_keys(var_views(self.vars@))
    }

    /// An empty table, which counts as changed.
    pub fn new() -> (r: Self)
        ensures
            r@.table == Map::<Seq<char>, RetroVarView>::empty(),
            r@.dirty,
    {
        let r = RetroVars { vars: Vec::new(), dirty: true };
        assert(var_views(r.vars@) =~= Seq::empty());
        r
    }

    /// Where the option with the given key stands, if it is registered.
    fn find(&self, k: &str) -> (r: Option<usize>)
        ensures
            r is Some <==> self@.table.contains_key(k@),
            r matches Some(i) ==> i < self.vars@.len() && self.vars@[i as int]@.key == k@
                && self@.table[k@] == self.vars@[i as int]@,
    {
        proof {
            use_type_invariant(self);
            lemma_table_keys(var_views(self.vars@), k@);
        }
        let mut i: usize = 0;
        while i < self.vars.len()
            invariant
                i <= self.vars@.len(),
                unique_keys(var_views(self.vars@)),
                forall|j: int| 0 <= j < i ==> (#[trigger] var_views(self.vars@)[j]).key != k@,
            decreases self.vars@.len() - i,
        {
            if str_eq(self.vars[i].key(), k) {
                proof {
                    assert(var_views(self.vars@)[i as int].key == k@);
                    lemma_table_entry(var_views(self.vars@), i as int);
                }
                return Some(i);
            }
            i += 1;
        }
        None
    }

    /// Adds an option, unless its key is taken.
    fn insert(&mut self, var: RetroVar) -> (r: bool)
        ensures
            r == !old(self)@.table.contains_key(var@.key),
            final(self)@ == old(self)@.add(Some(var@)),
    {
        let fresh = self.find(var.key()).is_none();
        proof {
            use_type_invariant(&*self);
        }
        if fresh {
            proof {
                lemma_table_keys(var_views(self.vars@), var@.key);
            }
            let ghost before = var_views(self.vars@);
            assert(forall|i: int| 0 <= i < before.len() ==> (#[trigger] before[i]).key != var@.key);
            let mut vars: Vec<RetroVar> = Vec::new();
            std::mem::swap(&mut self.vars, &mut vars);
            vars.push(var);
            assert(var_views(vars@) =~= before.push(var@));
            assert(var_views(vars@).drop_last() =~= before);
            std::mem::swap(&mut self.vars, &mut vars);
            self.dirty = true;
        }
        fresh
    }

    /// Registers an option given in the legacy format, `"description;
    /// v1|v2|..."`. Says whether the table took it: a definition without
    /// `"; "` is dropped, and so is one whose key is already registered.
    pub fn add_v0(&mut self, key: &PStr, descr: &PStr) -> (r: bool)
        ensures
            final(self)@ == old(self)@.add(RetroVarView::legacy(key@, descr@)),
            r == (RetroVarView::legacy(key@, descr@) is Some && !old(self)@.table.contains_key(
                key@,
            )),
    {
        match RetroVar::new_v0(key, descr) {
            Some(v) => self.insert(v),
            None => false,
        }
    }

    /// Registers an option given in the modern format. Says whether the
    /// table took it: one whose key is already registered is dropped.
    pub fn add_v1(
        &mut self,
        key: &PStr,
        descr: &PStr,
        info: &PStr,
        values: &[(PStr, Option<PStr>)],
        default: Option<&PStr>,
    ) -> (r: bool)
        ensures
            final(self)@ == old(self)@.add(
                Some(
                    RetroVarView::modern(
                        key@,
                        descr@,
                        info@,
                        value_views(values@),
                        match default {
                            Some(d) => Some(d@),
                            None => None,
                        },
                    ),
                ),
            ),
            r == !old(self)@.table.contains_key(key@),
    {
        let var = RetroVar::new_v1(key, descr, info, values, default);
        self.insert(var)
    }

    /// The registered options, in the order of their registration.
    pub fn get_vars(&self) -> (v: &Vec<RetroVar>)
        ensures
            table_of(var_views(v@)) == self@.table,
            unique_keys(var_views(v@)),
    {
        proof {
            use_type_invariant(self);
        }
        &self.vars
    }

    /// The current value of an option, or `None` if it is not registered.
    pub fn get_var(&self, k: &str) -> (r: Option<&PString>)
        ensures
            r is Some <==> self@.table.contains_key(k@),
            r matches Some(v) ==> v@ == self@.table[k@].value,
    {
        match self.find(k) {
            Some(i) => Some(self.vars[i].value_pstring()),
            None => None,
        }
    }

    /// Sets an option to a value that it can take, and marks the table as
    /// changed. Anything else is refused and leaves the table as it was.
    pub fn set_val(&mut self, k: &str, v: &PStr) -> (r: bool)
        ensures
            r == old(self)@.accepts(k@, v@),
            final(self)@ == old(self)@.set_val(k@, v@),
    {
        match self.find(k) {
            Some(i) => {
                proof {
                    use_type_invariant(&*self);
                }
                let ghost before = var_views(self.vars@);
                let mut vars: Vec<RetroVar> = Vec::new();
                std::mem::swap(&mut self.vars, &mut vars);
                let mut var = vars.remove(i);
                let ok = var.update(v);
                proof {
                    lemma_table_update(before, i as int, var@);
                }
                vars.insert(i, var);
                assert(var_views(vars@) =~= before.update(i as int, var@));
                std::mem::swap(&mut self.vars, &mut vars);
                if ok {
                    self.dirty = true;
                } else {
                    assert(before.update(i as int, var@) =~= before);
                }
                ok
            },
            None => false,
        }
    }

    /// Shows or hides an option. Says whether the option is registered.
    pub fn set_visible(&mut self, k: &str, v: bool) -> (r: bool)
        ensures
            r == old(self)@.table.contains_key(k@),
            final(self)@ == old(self)@.set_visible(k@, v),
    {
        match self.find(k) {
            Some(i) => {
                proof {
                    use_type_invariant(&*self);
                }
                let ghost before = var_views(self.vars@);
                let mut vars: Vec<RetroVar> = Vec::new();
                std::mem::swap(&mut self.vars, &mut vars);
                let mut var = vars.remove(i);
                var.set_visible(v);
                proof {
                    lemma_table_update(before, i as int, var@);
                }
                vars.insert(i, var);
                assert(var_views(vars@) =~= before.update(i as int, var@));
                std::mem::swap(&mut self.vars, &mut vars);
                true
            },
            None => false,
        }
    }

    /// Whether the table changed since this was last asked. Asking clears
    /// the mark.
    pub fn updated(&mut self) -> (d: bool)
        ensures
            d == old(self)@.dirty,
            final(self)@ == old(self)@.taken(),
    {
        proof {
            use_type_invariant(&*self);
        }
        let d = self.dirty;
        self.dirty = false;
        d
    }
}

} // verus!
