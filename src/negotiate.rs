//! Choosing one language from the client's preferences, alone or weighed
//! against the server's own weights.
use crate::header::{languages, prefs};
use crate::lang::LangCode;
use crate::quality::{one, Quality};
use vstd::prelude::*;

verus! {

/// Why no language could be chosen.
#[derive(Clone, Copy, Debug, PartialEq, Eq, Structural)]
pub enum Error {
    /// The header names no language this library knows.
    BadRequest,
    /// Every language the header names is switched off by the server.
    NotAcceptable,
}

/// The server's weight for each language: `1.0` unless set. A weight of zero
/// switches a language off.
pub struct Config {
    entries: Vec<(LangCode, Quality)>,
}

/// The weight that a list of settings gives `l`: the last one made for it.
pub open spec fn lookup(entries: Seq<(LangCode, Quality)>, l: LangCode) -> Quality
    decreases entries.len(),
{
    if entries.len() == 0 {
        one()
    } else if entries.last().0 == l {
        entries.last().1
    } else {
        lookup(entries.drop_last(), l)
    }
}

impl Config {
    /// The server's weight for `l`.
    pub closed spec fn weight_of(&self, l: LangCode) -> Quality {
        lookup(self.entries@, l)
    }

    /// A table that gives every language the weight `1.0`.
    pub fn new() -> (r: Config)
        ensures
            forall|l: LangCode| r.weight_of(l) == one(),
    {
        Config { entries: Vec::new() }
    }

    /// The weight of `l`.
    pub fn weight(&self, l: LangCode) -> (r: Quality)
        ensures
            r == self.weight_of(l),
    {
        let mut i = self.entries.len();
        assert(self.entries@.subrange(0, i as int) =~= self.entries@);
        while i > 0
            invariant
                i <= self.entries@.len(),
                lookup(self.entries@, l) == lookup(self.entries@.subrange(0, i as int), l),
            decreases i,
        {
            let ghost before = self.entries@.subrange(0, i as int);
            assert(before.drop_last() =~= self.entries@.subrange(0, i - 1));
            let e = self.entries[i - 1];
            if e.0 == l {
                return e.1;
            }
            i = i - 1;
        }
        Quality::one()
    }

    /// Sets the weight of `l`; a weight of zero switches it off.
    pub fn set_weight(&mut self, l: LangCode, w: Quality)
        ensures
            final(self).weight_of(l) == w,
            forall|m: LangCode| m != l ==> final(self).weight_of(m) == old(self).weight_of(m),
    {
        self.entries.push((l, w));
        assert(self.entries@.drop_last() =~= old(self).entries@);
    }
}

/// Whether a server weight switches its language off.
pub open spec fn disabled(w: Quality) -> bool {
    w.millionths == 0
}

/// The relative-improvement rule: moving from a language with server weight
/// `qs1` and client quality `qc1` to one with `qs2` and `qc2` happens when
/// `(qs1 - qs2) / qs1 < (qc2 - qc1) / qc2`, the fraction of client
/// preference gained beating the fraction of server suitability lost. With
/// `qs1` positive and `qc2` positive both sides are multiplied out; with `qc2`
/// zero the right side is minus infinity or undefined, and no move is made.
pub open spec fn switches(qs1: Quality, qc1: Quality, qs2: Quality, qc2: Quality) -> bool {
    let (s1, c1, s2, c2) = (
        qs1.millionths as int,
        qc1.millionths as int,
        qs2.millionths as int,
        qc2.millionths as int,
    );
    c2 > 0 && (s1 - s2) * c2 < (c2 - c1) * s1
}

/// The candidate after the preference `p` has been weighed against `cur`.
pub open spec fn step(
    cur: Option<(LangCode, Quality)>,
    p: (LangCode, Quality),
    config: &Config,
) -> Option<(LangCode, Quality)> {
    if disabled(config.weight_of(p.0)) {
        cur
    } else {
        match cur {
            None => Some(p),
            Some(c) => if switches(config.weight_of(c.0), c.1, config.weight_of(p.0), p.1) {
                Some(p)
            } else {
                cur
            },
        }
    }
}

/// The candidate left after weighing the preferences `ps` in order.
pub open spec fn decide(ps: Seq<(LangCode, Quality)>, config: &Config) -> Option<
    (LangCode, Quality),
>
    decreases ps.len(),
{
    if ps.len() == 0 {
        None
    } else {
        step(decide(ps.drop_last(), config), ps.last(), config)
    }
}

/// The preference of highest quality; of several with that quality, the last.
pub open spec fn top(ps: Seq<(LangCode, Quality)>) -> Option<(LangCode, Quality)>
    decreases ps.len(),
{
    if ps.len() == 0 {
        None
    } else {
        match top(ps.drop_last()) {
            Some(b) => if ps.last().1.millionths >= b.1.millionths {
                Some(ps.last())
            } else {
                Some(b)
            },
            None => Some(ps.last()),
        }
    }
}

/// The header text to negotiate on: the request's own, or `en` where it has
/// none or an empty one.
pub fn accept_language<'a>(header: Option<&'a str>) -> (r: &'a str)
    ensures
        r@ == match header {
            Some(h) => if h@.len() == 0 {
                "en"@
            } else {
                h@
            },
            None => "en"@,
        },
{
    match header {
        Some(h) => if h.unicode_len() == 0 {
            "en"
        } else {
            h
        },
        None => "en",
    }
}

/// The client's favourite language, with no server weights: the one of
/// highest quality, the last of them where several share it.
pub fn without_config_from_header(header: &str) -> (r: Result<LangCode, Error>)
    ensures
        r == match top(prefs(header@)) {
            Some(p) => Ok(p.0),
            None => Err(Error::BadRequest),
        },
        r == Err::<LangCode, Error>(Error::BadRequest) <==> prefs(header@).len() == 0,
{
    let ps = languages(header);
    let mut best: Option<(LangCode, Quality)> = None;
    let mut i: usize = 0;
    while i < ps.len()
        invariant
            i <= ps@.len(),
            best == top(ps@.subrange(0, i as int)),
        decreases ps@.len() - i,
    {
        assert(ps@.subrange(0, i + 1).drop_last() =~= ps@.subrange(0, i as int));
        let p = ps[i];
        best = match best {
            Some(b) => if p.1.millionths >= b.1.millionths {
                Some(p)
            } else {
                Some(b)
            },
            None => Some(p),
        };
        i = i + 1;
    }
    assert(ps@.subrange(0, i as int) =~= ps@);
    proof {
        lemma_top_none(ps@);
    }
    match best {
        Some(p) => Ok(p.0),
        None => Err(Error::BadRequest),
    }
}

proof fn lemma_top_none(ps: Seq<(LangCode, Quality)>)
    ensures
        top(ps) is None <==> ps.len() == 0,
{
}

proof fn lemma_top_member(ps: Seq<(LangCode, Quality)>)
    ensures
        top(ps) matches Some(b) ==> exists|j: int| 0 <= j < ps.len() && ps[j] == b,
    decreases ps.len(),
{
    if ps.len() > 0 {
        lemma_top_member(ps.drop_last());
        if let Some(b) = top(ps) {
            if b != ps.last() {
                let j = choose|j: int|
                    0 <= j < ps.drop_last().len() && ps.drop_last()[j] == b;
                assert(ps[j] == b);
            }
        }
    }
}

/// A preference whose quality is above that of every other is the one chosen,
/// wherever it stands among them.
pub proof fn lemma_strict_max_chosen(ps: Seq<(LangCode, Quality)>, k: int)
    requires
        0 <= k < ps.len(),
        forall|j: int| 0 <= j < ps.len() && j != k ==> ps[j].1.millionths < ps[k].1.millionths,
    ensures
        top(ps) == Some(ps[k]),
    decreases ps.len(),
{
    let front = ps.drop_last();
    lemma_top_member(front);
    if k == ps.len() - 1 {
        if let Some(b) = top(front) {
            let j = choose|j: int| 0 <= j < front.len() && front[j] == b;
            assert(ps[j] == b);
        }
    } else {
        assert forall|j: int| 0 <= j < front.len() && j != k implies front[j].1.millionths
            < front[k].1.millionths by {
            assert(front[j] == ps[j]);
        }
        lemma_strict_max_chosen(front, k);
    }
}

proof fn lemma_top_is_max(ps: Seq<(LangCode, Quality)>)
    ensures
        top(ps) matches Some(b) ==> ps.contains(b) && forall|j: int|
            0 <= j < ps.len() ==> (#[trigger] ps[j]).1.millionths <= b.1.millionths,
    decreases ps.len(),
{
    if ps.len() > 0 {
        let front = ps.drop_last();
        lemma_top_is_max(front);
        if let Some(b) = top(ps) {
            assert forall|j: int| 0 <= j < ps.len() implies (#[trigger] ps[j]).1.millionths
                <= b.1.millionths by {
                if j < front.len() {
                    assert(front[j] == ps[j]);
                }
            }
            if b == ps.last() {
                assert(ps[ps.len() - 1] == b);
            } else {
                let i = choose|i: int| 0 <= i < front.len() && front[i] == b;
                assert(ps[i] == b);
            }
        }
    }
}

/// Reordering the preferences does not change the language chosen, where all
/// the preferences of highest quality name one language.
pub proof fn lemma_reorder_keeps_choice(ps1: Seq<(LangCode, Quality)>, ps2: Seq<(LangCode, Quality)>)
    requires
        ps1.to_multiset() == ps2.to_multiset(),
        forall|i: int, j: int|
            0 <= i < ps1.len() && 0 <= j < ps1.len() && (forall|m: int|
                0 <= m < ps1.len() ==> (#[trigger] ps1[m]).1.millionths <= ps1[i].1.millionths)
                && ps1[j].1 == ps1[i].1 ==> ps1[i].0 == ps1[j].0,
    ensures
        top(ps1) is None <==> top(ps2) is None,
        top(ps1) matches Some(a) ==> top(ps2) matches Some(b) && a.0 == b.0,
{
    ps1.to_multiset_ensures();
    ps2.to_multiset_ensures();
    lemma_top_none(ps1);
    lemma_top_none(ps2);
    lemma_top_is_max(ps1);
    lemma_top_is_max(ps2);
    if let Some(a) = top(ps1) {
        let b = top(ps2).unwrap();
        assert(ps1.to_multiset().count(a) > 0);
        assert(ps2.contains(a));
        assert(ps2.to_multiset().count(b) > 0);
        assert(ps1.contains(b));
        let i = choose|i: int| 0 <= i < ps1.len() && ps1[i] == a;
        let j = choose|j: int| 0 <= j < ps1.len() && ps1[j] == b;
        let i2 = choose|i2: int| 0 <= i2 < ps2.len() && ps2[i2] == a;
        assert(ps2[i2].1.millionths <= b.1.millionths);
        assert(ps1[j].1.millionths <= a.1.millionths);
        assert forall|m: int| 0 <= m < ps1.len() implies (#[trigger] ps1[m]).1.millionths
            <= ps1[i].1.millionths by {}
    }
}

/// A language that the server switches off is never the one decided on,
/// whatever its client quality and wherever it stands.
pub proof fn lemma_disabled_never_chosen(
    ps: Seq<(LangCode, Quality)>,
    config: &Config,
    l: LangCode,
)
    requires
        disabled(config.weight_of(l)),
    ensures
        decide(ps, config) matches Some(p) ==> p.0 != l,
    decreases ps.len(),
{
    if ps.len() > 0 {
        lemma_disabled_never_chosen(ps.drop_last(), config, l);
    }
}

/// The language chosen by weighing client preferences against a server table.
pub struct Decider<'a> {
    lang: Option<LangCode>,
    q: Option<Quality>,
    config: &'a Config,
}

impl<'a> Decider<'a> {
    /// The current candidate with its client quality.
    pub closed spec fn state(&self) -> Option<(LangCode, Quality)> {
        match (self.lang, self.q) {
            (Some(l), Some(q)) => Some((l, q)),
            _ => None,
        }
    }

    pub closed spec fn table(&self) -> &'a Config {
        self.config
    }

    /// Both halves of the candidate are set together, and a candidate is
    /// never a language the server switched off.
    pub closed spec fn wf(&self) -> bool {
        &&& self.lang.is_some() == self.q.is_some()
        &&& match self.lang {
            Some(l) => !disabled(self.config.weight_of(l)),
            None => true,
        }
    }

    /// A decider with no candidate yet.
    pub fn new(config: &'a Config) -> (r: Self)
        ensures
            r.wf(),
            r.state() is None,
            r.table() == config,
    {
        Decider { lang: None, q: None, config }
    }

    /// Whether there is no candidate yet.
    pub fn is_none(&self) -> (r: bool)
        requires
            self.wf(),
        ensures
            r == self.state() is None,
    {
        self.lang.is_none()
    }

    /// Weighs `lang` at client quality `qclient2` against the current
    /// candidate, by the relative-improvement rule.
    pub fn compare(&mut self, lang2: LangCode, qclient2: Quality)
        requires
            old(self).wf(),
            old(self).state() is Some,
        ensures
            final(self).wf(),
            final(self).table() == old(self).table(),
            final(self).state() == step(old(self).state(), (lang2, qclient2), old(self).table()),
    {
        let lang1 = self.lang.unwrap();
        let qclient1 = self.q.unwrap();
        let qserver1 = self.config.weight(lang1);
        let qserver2 = self.config.weight(lang2);
        let (s1, c1, s2, c2) = (
            qserver1.millionths as u128,
            qclient1.millionths as u128,
            qserver2.millionths as u128,
            qclient2.millionths as u128,
        );
        proof {
            assert(s1 * c2 <= u64::MAX * u64::MAX) by (nonlinear_arith)
                requires
                    s1 <= u64::MAX,
                    c2 <= u64::MAX,
            ;
            assert(c1 * s1 <= u64::MAX * u64::MAX) by (nonlinear_arith)
                requires
                    s1 <= u64::MAX,
                    c1 <= u64::MAX,
            ;
            assert(s2 * c2 <= u64::MAX * u64::MAX) by (nonlinear_arith)
                requires
                    s2 <= u64::MAX,
                    c2 <= u64::MAX,
            ;
            let (a1, b1, a2, b2) = (s1 as int, c1 as int, s2 as int, c2 as int);
            assert((a1 - a2) * b2 < (b2 - b1) * a1 <==> b1 * a1 < a2 * b2) by (nonlinear_arith);
            assert(a2 == 0 ==> a2 * b2 == 0 <= b1 * a1) by (nonlinear_arith)
                requires
                    b1 >= 0,
                    a1 >= 0,
            ;
        }
        if c2 > 0 && c1 * s1 < s2 * c2 {
            self.lang = Some(lang2);
            self.q = Some(qclient2);
        }
    }

    /// Weighs one client preference: a language the server switched off is
    /// passed over, the first other one becomes the candidate, and later ones
    /// go by `compare`.
    pub fn add_preference(&mut self, lang: LangCode, q: Quality)
        requires
            old(self).wf(),
        ensures
            final(self).wf(),
            final(self).table() == old(self).table(),
            final(self).state() == step(old(self).state(), (lang, q), old(self).table()),
    {
        if self.config.weight(lang).is_zero() {
            return;
        }
        if self.is_none() {
            self.lang = Some(lang);
            self.q = Some(q);
        } else {
            self.compare(lang, q);
        }
    }

    /// The chosen language, or `NotAcceptable` where there is none.
    pub fn result(&self) -> (r: Result<LangCode, Error>)
        requires
            self.wf(),
        ensures
            r == match self.state() {
                Some(p) => Ok(p.0),
                None => Err(Error::NotAcceptable),
            },
    {
        match self.lang {
            Some(l) => Ok(l),
            None => Err(Error::NotAcceptable),
        }
    }
}

/// The language chosen by weighing the header's preferences, in order,
/// against the server's table.
pub fn with_config_from_header(header: &str, config: &Config) -> (r: Result<LangCode, Error>)
    ensures
        r == match decide(prefs(header@), config) {
            Some(p) => Ok(p.0),
            None => Err(Error::NotAcceptable),
        },
        r matches Ok(l) ==> !disabled(config.weight_of(l)),
{
    let ps = languages(header);
    let mut decider = Decider::new(config);
    let mut i: usize = 0;
    while i < ps.len()
        invariant
            i <= ps@.len(),
            decider.wf(),
            decider.table() == config,
            decider.state() == decide(ps@.subrange(0, i as int), config),
        decreases ps@.len() - i,
    {
        assert(ps@.subrange(0, i + 1).drop_last() =~= ps@.subrange(0, i as int));
        let (lang, q) = ps[i];
        decider.add_preference(lang, q);
        i = i + 1;
    }
    assert(ps@.subrange(0, i as int) =~= ps@);
    let r = decider.result();
    proof {
        if let Ok(l) = r {
            if disabled(config.weight_of(l)) {
                lemma_disabled_never_chosen(ps@, config, l);
            }
        }
    }
    r
}

} // verus!
