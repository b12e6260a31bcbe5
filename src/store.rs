use vstd::prelude::*;

use crate::platform::{new_uuid, now_rfc3339};
use crate::script::{script_views, Script, ScriptView};

verus! {

/// `i` is the first position in `ss` whose script has identifier `id`.
pub open spec fn is_first_match(ss: Seq<ScriptView>, id: Seq<char>, i: int) -> bool {
    &&& 0 <= i < ss.len()
    &&& ss[i].id == id
    &&& forall|j: int| 0 <= j < i ==> ss[j].id != id
}

/// Some script of `ss` has identifier `id`.
pub open spec fn has_id(ss: Seq<ScriptView>, id: Seq<char>) -> bool {
    exists|i: int| 0 <= i < ss.len() && ss[i].id == id
}

/// The position of the first script with identifier `id`, or -1.
pub open spec fn first_match(ss: Seq<ScriptView>, id: Seq<char>) -> int {
    if exists|i: int| is_first_match(ss, id, i) {
        choose|i: int| is_first_match(ss, id, i)
    } else {
        -1
    }
}

/// The script that a lookup by identifier finds: the first one with that id.
pub open spec fn lookup(ss: Seq<ScriptView>, id: Seq<char>) -> Option<ScriptView> {
    if first_match(ss, id) >= 0 {
        Some(ss[first_match(ss, id)])
    } else {
        None
    }
}

/// The collection with every script of identifier `id` removed, order kept.
pub open spec fn without_id(ss: Seq<ScriptView>, id: Seq<char>) -> Seq<ScriptView>
    decreases ss.len(),
{
    if ss.len() == 0 {
        ss
    } else {
        let rest = without_id(ss.drop_last(), id);
        if ss.last().id == id {
            rest
        } else {
            rest.push(ss.last())
        }
    }
}

/// A script as `create` stores it.
pub open spec fn fresh_script(
    id: Seq<char>,
    now: Seq<char>,
    name: Seq<char>,
    description: Seq<char>,
    code: Seq<char>,
) -> ScriptView {
    ScriptView {
        id,
        name,
        description,
        code,
        enabled: true,
        created_at: now,
        updated_at: now,
    }
}

/// A script after `update`: the three editable fields and `updated_at` replaced.
pub open spec fn edited_script(
    s: ScriptView,
    name: Seq<char>,
    description: Seq<char>,
    code: Seq<char>,
    now: Seq<char>,
) -> ScriptView {
    ScriptView { name, description, code, updated_at: now, ..s }
}

proof fn lemma_first_match_unique(ss: Seq<ScriptView>, id: Seq<char>, i: int)
    requires
        is_first_match(ss, id, i),
    ensures
        first_match(ss, id) == i,
        lookup(ss, id) == Some(ss[i]),
{
    let k = first_match(ss, id);
    assert(is_first_match(ss, id, k));
    if k < i {
        assert(ss[k].id != id);
    } else if k > i {
        assert(ss[i].id != id);
    }
}

proof fn lemma_no_match(ss: Seq<ScriptView>, id: Seq<char>)
    requires
        !has_id(ss, id),
    ensures
        first_match(ss, id) == -1,
        lookup(ss, id) is None,
        without_id(ss, id) == ss,
    decreases ss.len(),
{
    if exists|i: int| is_first_match(ss, id, i) {
        let i = choose|i: int| is_first_match(ss, id, i);
        assert(ss[i].id == id);
    }
    if ss.len() > 0 {
        assert(!has_id(ss.drop_last(), id)) by {
            if has_id(ss.drop_last(), id) {
                let i = choose|i: int| 0 <= i < ss.drop_last().len() && ss.drop_last()[i].id == id;
                assert(ss[i].id == id);
            }
        }
        lemma_no_match(ss.drop_last(), id);
        assert(ss.last().id != id);
        assert(ss.drop_last().push(ss.last()) =~= ss);
    }
}

/// `a` comes strictly before `b` in character order (timestamps of one
/// format compare this way).
pub open spec fn text_before(a: Seq<char>, b: Seq<char>) -> bool
    decreases a.len(),
{
    if a.len() == 0 {
        b.len() > 0
    } else if b.len() == 0 {
        false
    } else if a[0] != b[0] {
        (a[0] as u32) < (b[0] as u32)
    } else {
        text_before(a.drop_first(), b.drop_first())
    }
}

/// A script that `create` appends is found again by its identifier, with
/// exactly the name, description and code it was created with, its
/// identifier and timestamps set, and equal creation and modification times;
/// this holds whenever no script stored before carries the same identifier.
pub proof fn lemma_created_script_found(
    before: Seq<ScriptView>,
    id: Seq<char>,
    now: Seq<char>,
    name: Seq<char>,
    description: Seq<char>,
    code: Seq<char>,
)
    requires
        !has_id(before, id),
    ensures
        lookup(before.push(fresh_script(id, now, name, description, code)), id) == Some(
            fresh_script(id, now, name, description, code),
        ),
        fresh_script(id, now, name, description, code).name == name,
        fresh_script(id, now, name, description, code).description == description,
        fresh_script(id, now, name, description, code).code == code,
        fresh_script(id, now, name, description, code).created_at == fresh_script(
            id,
            now,
            name,
            description,
            code,
        ).updated_at,
{
    let created = fresh_script(id, now, name, description, code);
    let after = before.push(created);
    assert forall|j: int| 0 <= j < before.len() implies after[j].id != id by {
        assert(after[j] == before[j]);
    }
    assert(is_first_match(after, id, before.len() as int));
    lemma_first_match_unique(after, id, before.len() as int);
}

/// `update` keeps the identifier and creation time of the script it edits
/// and sets its modification time to the clock reading it was given; that
/// time is not earlier than the previous one whenever the reading is not.
/// The edited script is still the one that a lookup by its identifier finds.
pub proof fn lemma_update_keeps_identity(
    before: Seq<ScriptView>,
    id: Seq<char>,
    name: Seq<char>,
    description: Seq<char>,
    code: Seq<char>,
    now: Seq<char>,
)
    requires
        lookup(before, id) is Some,
        !text_before(now, lookup(before, id)->Some_0.updated_at),
    ensures
        ({
            let prior = lookup(before, id)->Some_0;
            let edited = edited_script(prior, name, description, code, now);
            let after = before.update(first_match(before, id), edited);
            &&& lookup(after, id) == Some(edited)
            &&& edited.id == prior.id
            &&& edited.created_at == prior.created_at
            &&& edited.updated_at == now
            &&& !text_before(edited.updated_at, prior.updated_at)
        }),
{
    let k = first_match(before, id);
    if !(exists|i: int| is_first_match(before, id, i)) {
        assert(false);
    }
    assert(is_first_match(before, id, k));
    let prior = before[k];
    let edited = edited_script(prior, name, description, code, now);
    let after = before.update(k, edited);
    assert forall|j: int| 0 <= j < k implies after[j].id != id by {
        assert(after[j] == before[j]);
    }
    assert(is_first_match(after, id, k));
    lemma_first_match_unique(after, id, k);
}

/// The store of script definitions, in insertion order.
pub struct ScriptStore {
    scripts: Vec<Script>,
}

impl View for ScriptStore {
    type V = Seq<ScriptView>;

    closed spec fn view(&self) -> Seq<ScriptView> {
        script_views(self.scripts@)
    }
}

impl ScriptStore {
    /// A store holding what was loaded from the backing file; an absent or
    /// unreadable file gives `None` and an empty store.
    pub fn new(loaded: Option<Vec<Script>>) -> (r: ScriptStore)
        ensures
            r@ == match loaded {
                Some(v) => script_views(v@),
                None => Seq::<ScriptView>::empty(),
            },
    {
        match loaded {
            Some(v) => ScriptStore { scripts: v },
            None => {
                let r = ScriptStore { scripts: Vec::new() };
                assert(r@ =~= Seq::<ScriptView>::empty());
                r
            },
        }
    }

    /// All scripts, in insertion order.
    pub fn list(&self) -> (r: Vec<Script>)
        ensures
            script_views(r@) == self@,
    {
        let mut out: Vec<Script> = Vec::new();
        let mut i: usize = 0;
        while i < self.scripts.len()
            invariant
                i <= self.scripts@.len(),
                out@.len() == i,
                forall|j: int| 0 <= j < i ==> out@[j]@ == self.scripts@[j]@,
            decreases self.scripts@.len() - i,
        {
            out.push(self.scripts[i].duplicate());
            i = i + 1;
        }
        assert(script_views(out@) =~= self@);
        out
    }

    /// The number of stored scripts.
    pub fn count(&self) -> (r: usize)
        ensures
            r == self@.len(),
    {
        self.scripts.len()
    }

    /// The position of the first script with identifier `id`, if any.
    fn position(&self, id: &str) -> (r: Option<usize>)
        ensures
            match r {
                Some(i) => is_first_match(self@, id@, i as int),
                None => !has_id(self@, id@),
            },
    {
        let key = String::from_str(id);
        let mut i: usize = 0;
        while i < self.scripts.len()
            invariant
                i <= self.scripts@.len(),
                key@ == id@,
                forall|j: int| 0 <= j < i ==> self@[j].id != id@,
            decreases self.scripts@.len() - i,
        {
            if self.scripts[i].id == key {
                return Some(i);
            }
            i = i + 1;
        }
        None
    }

    /// The first script with identifier `id`, or `None` when there is none.
    pub fn get(&self, id: &str) -> (r: Option<Script>)
        ensures
            match r {
                Some(s) => lookup(self@, id@) == Some(s@),
                None => lookup(self@, id@) is None,
            },
    {
        match self.position(id) {
            Some(i) => {
                proof {
                    lemma_first_match_unique(self@, id@, i as int);
                }
                Some(self.scripts[i].duplicate())
            },
            None => {
                proof {
                    lemma_no_match(self@, id@);
                }
                None
            },
        }
    }

    /// Appends a script with the given identifier and timestamp as both
    /// creation and modification time; it starts enabled.
    pub fn insert_new(
        &mut self,
        id: String,
        now: String,
        name: String,
        description: String,
        code: String,
    ) -> (r: Script)
        ensures
            r@ == fresh_script(id@, now@, name@, description@, code@),
            final(self)@ == old(self)@.push(r@),
    {
        let stamp = now.clone();
        let script = Script {
            id,
            name,
            description,
            code,
            enabled: true,
            created_at: now,
            updated_at: stamp,
        };
        let r = script.duplicate();
        self.scripts.push(script);
        assert(script_views(self.scripts@) =~= script_views(old(self).scripts@).push(r@));
        r
    }

    /// Creates a script with a new random identifier, stamped with the
    /// current time, and appends it.
    pub fn create(&mut self, name: String, description: String, code: String) -> (r: Script)
        ensures
            final(self)@ == old(self)@.push(r@),
            r.name@ == name@,
            r.description@ == description@,
            r.code@ == code@,
            r.enabled,
            r.id@.len() == 36,
            r.created_at@.len() > 0,
            r.created_at@ == r.updated_at@,
    {
        let id = new_uuid();
        let now = now_rfc3339();
        self.insert_new(id, now, name, description, code)
    }

    /// Rewrites name, description and code of the first script with
    /// identifier `id` and stamps `now` as its modification time.
    pub fn update_at(
        &mut self,
        id: &str,
        name: String,
        description: String,
        code: String,
        now: String,
    ) -> (r: Option<Script>)
        ensures
            match lookup(old(self)@, id@) {
                None => r is None && final(self)@ == old(self)@,
                Some(s) => {
                    let e = edited_script(s, name@, description@, code@, now@);
                    &&& r matches Some(u) && u@ == e
                    &&& final(self)@ == old(self)@.update(first_match(old(self)@, id@), e)
                },
            },
    {
        match self.position(id) {
            Some(i) => {
                proof {
                    lemma_first_match_unique(self@, id@, i as int);
                }
                let old_script = self.scripts[i].duplicate();
                let updated = Script {
                    id: old_script.id,
                    name,
                    description,
                    code,
                    enabled: old_script.enabled,
                    created_at: old_script.created_at,
                    updated_at: now,
                };
                let r = updated.duplicate();
                self.scripts.set(i, updated);
                assert(script_views(self.scripts@) =~= script_views(old(self).scripts@).update(
                    i as int,
                    r@,
                ));
                Some(r)
            },
            None => {
                proof {
                    lemma_no_match(self@, id@);
                }
                None
            },
        }
    }

    /// Rewrites name, description and code of the first script with
    /// identifier `id`, stamped with the current time.
    pub fn update(&mut self, id: &str, name: String, description: String, code: String) -> (r:
        Option<Script>)
        ensures
            match lookup(old(self)@, id@) {
                None => r is None && final(self)@ == old(self)@,
                Some(s) => {
                    &&& r is Some
                    &&& r->Some_0@ == edited_script(
                        s,
                        name@,
                        description@,
                        code@,
                        r->Some_0.updated_at@,
                    )
                    &&& final(self)@ == old(self)@.update(first_match(old(self)@, id@), r->Some_0@)
                },
            },
    {
        let now = now_rfc3339();
        self.update_at(id, name, description, code, now)
    }

    /// Removes every script with identifier `id`; true iff one was removed.
    pub fn delete(&mut self, id: &str) -> (r: bool)
        ensures
            r == has_id(old(self)@, id@),
            final(self)@ == without_id(old(self)@, id@),
            !r ==> final(self)@ == old(self)@,
    {
        let key = String::from_str(id);
        let ghost before = self@;
        let mut kept: Vec<Script> = Vec::new();
        let mut found = false;
        let mut i: usize = 0;
        while i < self.scripts.len()
            invariant
                i <= self.scripts@.len(),
                before == self@,
                key@ == id@,
                script_views(kept@) == without_id(before.subrange(0, i as int), id@),
                found == has_id(before.subrange(0, i as int), id@),
            decreases self.scripts@.len() - i,
        {
            let ghost prefix = before.subrange(0, i as int);
            let ghost next = before.subrange(0, i as int + 1);
            assert(next.drop_last() =~= prefix);
            if self.scripts[i].id == key {
                found = true;
                assert(next[i as int].id == id@);
            } else {
                kept.push(self.scripts[i].duplicate());
                assert(script_views(kept@) =~= without_id(prefix, id@).push(before[i as int]));
                assert(found == has_id(next, id@)) by {
                    if has_id(next, id@) {
                        let j = choose|j: int| 0 <= j < next.len() && next[j].id == id@;
                        if j < i {
                            assert(prefix[j].id == id@);
                        }
                    }
                    if has_id(prefix, id@) {
                        let j = choose|j: int| 0 <= j < prefix.len() && prefix[j].id == id@;
                        assert(next[j].id == id@);
                    }
                }
            }
            assert(found == has_id(next, id@)) by {
                if has_id(prefix, id@) {
                    let j = choose|j: int| 0 <= j < prefix.len() && prefix[j].id == id@;
                    assert(next[j].id == id@);
                }
            }
            i = i + 1;
        }
        assert(before.subrange(0, i as int) =~= before);
        self.scripts = kept;
        if !found {
            proof {
                lemma_no_match(before, id@);
            }
        }
        found
    }
}

} // verus!
