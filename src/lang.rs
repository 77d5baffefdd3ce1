use vstd::prelude::*;

verus! {

/// A language, named by its two-letter ISO 639-1 code.
#[derive(Clone, Copy, Debug, PartialEq, Eq, Structural, Hash)]
pub enum LangCode {
    Aa,
    Ab,
    Ae,
    Af,
    Ak,
    Am,
    An,
    Ar,
    As,
    Av,
    Ay,
    Az,
    Ba,
    Be,
    Bg,
    Bh,
    Bi,
    Bm,
    Bn,
    Bo,
    Br,
    Bs,
    Ca,
    Ce,
    Ch,
    Co,
    Cr,
    Cs,
    Cu,
    Cv,
    Cy,
    Da,
    De,
    Dv,
    Dz,
    Ee,
    El,
    En,
    Eo,
    Es,
    Et,
    Eu,
    Fa,
    Ff,
    Fi,
    Fj,
    Fo,
    Fr,
    Fy,
    Ga,
    Gd,
    Gl,
    Gn,
    Gu,
    Gv,
    Ha,
    He,
    Hi,
    Ho,
    Hr,
    Ht,
    Hu,
    Hy,
    Hz,
    Ia,
    Id,
    Ie,
    Ig,
    Ii,
    Ik,
    Io,
    Is,
    It,
    Iu,
    Ja,
    Jv,
    Ka,
    Kg,
    Ki,
    Kj,
    Kk,
    Kl,
    Km,
    Kn,
    Ko,
    Kr,
    Ks,
    Ku,
    Kv,
    Kw,
    Ky,
    La,
    Lb,
    Lg,
    Li,
    Ln,
    Lo,
    Lt,
    Lu,
    Lv,
    Mg,
    Mh,
    Mi,
    Mk,
    Ml,
    Mn,
    Mr,
    Ms,
    Mt,
    My,
    Na,
    Nb,
    Nd,
    Ne,
    Ng,
    Nl,
    Nn,
    No,
    Nr,
    Nv,
    Ny,
    Oc,
    Oj,
    Om,
    Or,
    Os,
    Pa,
    Pi,
    Pl,
    Ps,
    Pt,
    Qu,
    Rm,
    Rn,
    Ro,
    Ru,
    Rw,
    Sa,
    Sc,
    Sd,
    Se,
    Sg,
    Si,
    Sk,
    Sl,
    Sm,
    Sn,
    So,
    Sq,
    Sr,
    Ss,
    St,
    Su,
    Sv,
    Sw,
    Ta,
    Te,
    Tg,
    Th,
    Ti,
    Tk,
    Tl,
    Tn,
    To,
    Tr,
    Ts,
    Tt,
    Tw,
    Ty,
    Ug,
    Uk,
    Ur,
    Uz,
    Ve,
    Vi,
    Vo,
    Wa,
    Wo,
    Xh,
    Yi,
    Yo,
    Za,
    Zh,
    Zu,
}

/// The two letters that name a language.
pub open spec fn code_pair(l: LangCode) -> (char, char) {
    match l {
        LangCode::Aa => ('a', 'a'),
        LangCode::Ab => ('a', 'b'),
        LangCode::Ae => ('a', 'e'),
        LangCode::Af => ('a', 'f'),
        LangCode::Ak => ('a', 'k'),
        LangCode::Am => ('a', 'm'),
        LangCode::An => ('a', 'n'),
        LangCode::Ar => ('a', 'r'),
        LangCode::As => ('a', 's'),
        LangCode::Av => ('a', 'v'),
        LangCode::Ay => ('a', 'y'),
        LangCode::Az => ('a', 'z'),
        LangCode::Ba => ('b', 'a'),
        LangCode::Be => ('b', 'e'),
        LangCode::Bg => ('b', 'g'),
        LangCode::Bh => ('b', 'h'),
        LangCode::Bi => ('b', 'i'),
        LangCode::Bm => ('b', 'm'),
        LangCode::Bn => ('b', 'n'),
        LangCode::Bo => ('b', 'o'),
        LangCode::Br => ('b', 'r'),
        LangCode::Bs => ('b', 's'),
        LangCode::Ca => ('c', 'a'),
        LangCode::Ce => ('c', 'e'),
        LangCode::Ch => ('c', 'h'),
        LangCode::Co => ('c', 'o'),
        LangCode::Cr => ('c', 'r'),
        LangCode::Cs => ('c', 's'),
        LangCode::Cu => ('c', 'u'),
        LangCode::Cv => ('c', 'v'),
        LangCode::Cy => ('c', 'y'),
        LangCode::Da => ('d', 'a'),
        LangCode::De => ('d', 'e'),
        LangCode::Dv => ('d', 'v'),
        LangCode::Dz => ('d', 'z'),
        LangCode::Ee => ('e', 'e'),
        LangCode::El => ('e', 'l'),
        LangCode::En => ('e', 'n'),
        LangCode::Eo => ('e', 'o'),
        LangCode::Es => ('e', 's'),
        LangCode::Et => ('e', 't'),
        LangCode::Eu => ('e', 'u'),
        LangCode::Fa => ('f', 'a'),
        LangCode::Ff => ('f', 'f'),
        LangCode::Fi => ('f', 'i'),
        LangCode::Fj => ('f', 'j'),
        LangCode::Fo => ('f', 'o'),
        LangCode::Fr => ('f', 'r'),
        LangCode::Fy => ('f', 'y'),
        LangCode::Ga => ('g', 'a'),
        LangCode::Gd => ('g', 'd'),
        LangCode::Gl => ('g', 'l'),
        LangCode::Gn => ('g', 'n'),
        LangCode::Gu => ('g', 'u'),
        LangCode::Gv => ('g', 'v'),
        LangCode::Ha => ('h', 'a'),
        LangCode::He => ('h', 'e'),
        LangCode::Hi => ('h', 'i'),
        LangCode::Ho => ('h', 'o'),
        LangCode::Hr => ('h', 'r'),
        LangCode::Ht => ('h', 't'),
        LangCode::Hu => ('h', 'u'),
        LangCode::Hy => ('h', 'y'),
        LangCode::Hz => ('h', 'z'),
        LangCode::Ia => ('i', 'a'),
        LangCode::Id => ('i', 'd'),
        LangCode::Ie => ('i', 'e'),
        LangCode::Ig => ('i', 'g'),
        LangCode::Ii => ('i', 'i'),
        LangCode::Ik => ('i', 'k'),
        LangCode::Io => ('i', 'o'),
        LangCode::Is => ('i', 's'),
        LangCode::It => ('i', 't'),
        LangCode::Iu => ('i', 'u'),
        LangCode::Ja => ('j', 'a'),
        LangCode::Jv => ('j', 'v'),
        LangCode::Ka => ('k', 'a'),
        LangCode::Kg => ('k', 'g'),
        LangCode::Ki => ('k', 'i'),
        LangCode::Kj => ('k', 'j'),
        LangCode::Kk => ('k', 'k'),
        LangCode::Kl => ('k', 'l'),
        LangCode::Km => ('k', 'm'),
        LangCode::Kn => ('k', 'n'),
        LangCode::Ko => ('k', 'o'),
        LangCode::Kr => ('k', 'r'),
        LangCode::Ks => ('k', 's'),
        LangCode::Ku => ('k', 'u'),
        LangCode::Kv => ('k', 'v'),
        LangCode::Kw => ('k', 'w'),
        LangCode::Ky => ('k', 'y'),
        LangCode::La => ('l', 'a'),
        LangCode::Lb => ('l', 'b'),
        LangCode::Lg => ('l', 'g'),
        LangCode::Li => ('l', 'i'),
        LangCode::Ln => ('l', 'n'),
        LangCode::Lo => ('l', 'o'),
        LangCode::Lt => ('l', 't'),
        LangCode::Lu => ('l', 'u'),
        LangCode::Lv => ('l', 'v'),
        LangCode::Mg => ('m', 'g'),
        LangCode::Mh => ('m', 'h'),
        LangCode::Mi => ('m', 'i'),
        LangCode::Mk => ('m', 'k'),
        LangCode::Ml => ('m', 'l'),
        LangCode::Mn => ('m', 'n'),
        LangCode::Mr => ('m', 'r'),
        LangCode::Ms => ('m', 's'),
        LangCode::Mt => ('m', 't'),
        LangCode::My => ('m', 'y'),
        LangCode::Na => ('n', 'a'),
        LangCode::Nb => ('n', 'b'),
        LangCode::Nd => ('n', 'd'),
        LangCode::Ne => ('n', 'e'),
        LangCode::Ng => ('n', 'g'),
        LangCode::Nl => ('n', 'l'),
        LangCode::Nn => ('n', 'n'),
        LangCode::No => ('n', 'o'),
        LangCode::Nr => ('n', 'r'),
        LangCode::Nv => ('n', 'v'),
        LangCode::Ny => ('n', 'y'),
        LangCode::Oc => ('o', 'c'),
        LangCode::Oj => ('o', 'j'),
        LangCode::Om => ('o', 'm'),
        LangCode::Or => ('o', 'r'),
        LangCode::Os => ('o', 's'),
        LangCode::Pa => ('p', 'a'),
        LangCode::Pi => ('p', 'i'),
        LangCode::Pl => ('p', 'l'),
        LangCode::Ps => ('p', 's'),
        LangCode::Pt => ('p', 't'),
        LangCode::Qu => ('q', 'u'),
        LangCode::Rm => ('r', 'm'),
        LangCode::Rn => ('r', 'n'),
        LangCode::Ro => ('r', 'o'),
        LangCode::Ru => ('r', 'u'),
        LangCode::Rw => ('r', 'w'),
        LangCode::Sa => ('s', 'a'),
        LangCode::Sc => ('s', 'c'),
        LangCode::Sd => ('s', 'd'),
        LangCode::Se => ('s', 'e'),
        LangCode::Sg => ('s', 'g'),
        LangCode::Si => ('s', 'i'),
        LangCode::Sk => ('s', 'k'),
        LangCode::Sl => ('s', 'l'),
        LangCode::Sm => ('s', 'm'),
        LangCode::Sn => ('s', 'n'),
        LangCode::So => ('s', 'o'),
        LangCode::Sq => ('s', 'q'),
        LangCode::Sr => ('s', 'r'),
        LangCode::Ss => ('s', 's'),
        LangCode::St => ('s', 't'),
        LangCode::Su => ('s', 'u'),
        LangCode::Sv => ('s', 'v'),
        LangCode::Sw => ('s', 'w'),
        LangCode::Ta => ('t', 'a'),
        LangCode::Te => ('t', 'e'),
        LangCode::Tg => ('t', 'g'),
        LangCode::Th => ('t', 'h'),
        LangCode::Ti => ('t', 'i'),
        LangCode::Tk => ('t', 'k'),
        LangCode::Tl => ('t', 'l'),
        LangCode::Tn => ('t', 'n'),
        LangCode::To => ('t', 'o'),
        LangCode::Tr => ('t', 'r'),
        LangCode::Ts => ('t', 's'),
        LangCode::Tt => ('t', 't'),
        LangCode::Tw => ('t', 'w'),
        LangCode::Ty => ('t', 'y'),
        LangCode::Ug => ('u', 'g'),
        LangCode::Uk => ('u', 'k'),
        LangCode::Ur => ('u', 'r'),
        LangCode::Uz => ('u', 'z'),
        LangCode::Ve => ('v', 'e'),
        LangCode::Vi => ('v', 'i'),
        LangCode::Vo => ('v', 'o'),
        LangCode::Wa => ('w', 'a'),
        LangCode::Wo => ('w', 'o'),
        LangCode::Xh => ('x', 'h'),
        LangCode::Yi => ('y', 'i'),
        LangCode::Yo => ('y', 'o'),
        LangCode::Za => ('z', 'a'),
        LangCode::Zh => ('z', 'h'),
        LangCode::Zu => ('z', 'u'),
    }
}

/// The canonical text of a language code.
pub open spec fn code_text(l: LangCode) -> Seq<char> {
    seq![code_pair(l).0, code_pair(l).1]
}

/// Different languages have different codes.
pub proof fn lemma_code_pair_injective(l1: LangCode, l2: LangCode)
    requires
        code_pair(l1) == code_pair(l2),
    ensures
        l1 == l2,
{
    match l1 {
        LangCode::Aa => {},
        LangCode::Ab => {},
        LangCode::Ae => {},
        LangCode::Af => {},
        LangCode::Ak => {},
        LangCode::Am => {},
        LangCode::An => {},
        LangCode::Ar => {},
        LangCode::As => {},
        LangCode::Av => {},
        LangCode::Ay => {},
        LangCode::Az => {},
        LangCode::Ba => {},
        LangCode::Be => {},
        LangCode::Bg => {},
        LangCode::Bh => {},
        LangCode::Bi => {},
        LangCode::Bm => {},
        LangCode::Bn => {},
        LangCode::Bo => {},
        LangCode::Br => {},
        LangCode::Bs => {},
        LangCode::Ca => {},
        LangCode::Ce => {},
        LangCode::Ch => {},
        LangCode::Co => {},
        LangCode::Cr => {},
        LangCode::Cs => {},
        LangCode::Cu => {},
        LangCode::Cv => {},
        LangCode::Cy => {},
        LangCode::Da => {},
        LangCode::De => {},
        LangCode::Dv => {},
        LangCode::Dz => {},
        LangCode::Ee => {},
        LangCode::El => {},
        LangCode::En => {},
        LangCode::Eo => {},
        LangCode::Es => {},
        LangCode::Et => {},
        LangCode::Eu => {},
        LangCode::Fa => {},
        LangCode::Ff => {},
        LangCode::Fi => {},
        LangCode::Fj => {},
        LangCode::Fo => {},
        LangCode::Fr => {},
        LangCode::Fy => {},
        LangCode::Ga => {},
        LangCode::Gd => {},
        LangCode::Gl => {},
        LangCode::Gn => {},
        LangCode::Gu => {},
        LangCode::Gv => {},
        LangCode::Ha => {},
        LangCode::He => {},
        LangCode::Hi => {},
        LangCode::Ho => {},
        LangCode::Hr => {},
        LangCode::Ht => {},
        LangCode::Hu => {},
        LangCode::Hy => {},
        LangCode::Hz => {},
        LangCode::Ia => {},
        LangCode::Id => {},
        LangCode::Ie => {},
        LangCode::Ig => {},
        LangCode::Ii => {},
        LangCode::Ik => {},
        LangCode::Io => {},
        LangCode::Is => {},
        LangCode::It => {},
        LangCode::Iu => {},
        LangCode::Ja => {},
        LangCode::Jv => {},
        LangCode::Ka => {},
        LangCode::Kg => {},
        LangCode::Ki => {},
        LangCode::Kj => {},
        LangCode::Kk => {},
        LangCode::Kl => {},
        LangCode::Km => {},
        LangCode::Kn => {},
        LangCode::Ko => {},
        LangCode::Kr => {},
        LangCode::Ks => {},
        LangCode::Ku => {},
        LangCode::Kv => {},
        LangCode::Kw => {},
        LangCode::Ky => {},
        LangCode::La => {},
        LangCode::Lb => {},
        LangCode::Lg => {},
        LangCode::Li => {},
        LangCode::Ln => {},
        LangCode::Lo => {},
        LangCode::Lt => {},
        LangCode::Lu => {},
        LangCode::Lv => {},
        LangCode::Mg => {},
        LangCode::Mh => {},
        LangCode::Mi => {},
        LangCode::Mk => {},
        LangCode::Ml => {},
        LangCode::Mn => {},
        LangCode::Mr => {},
        LangCode::Ms => {},
        LangCode::Mt => {},
        LangCode::My => {},
        LangCode::Na => {},
        LangCode::Nb => {},
        LangCode::Nd => {},
        LangCode::Ne => {},
        LangCode::Ng => {},
        LangCode::Nl => {},
        LangCode::Nn => {},
        LangCode::No => {},
        LangCode::Nr => {},
        LangCode::Nv => {},
        LangCode::Ny => {},
        LangCode::Oc => {},
        LangCode::Oj => {},
        LangCode::Om => {},
        LangCode::Or => {},
        LangCode::Os => {},
        LangCode::Pa => {},
        LangCode::Pi => {},
        LangCode::Pl => {},
        LangCode::Ps => {},
        LangCode::Pt => {},
        LangCode::Qu => {},
        LangCode::Rm => {},
        LangCode::Rn => {},
        LangCode::Ro => {},
        LangCode::Ru => {},
        LangCode::Rw => {},
        LangCode::Sa => {},
        LangCode::Sc => {},
        LangCode::Sd => {},
        LangCode::Se => {},
        LangCode::Sg => {},
        LangCode::Si => {},
        LangCode::Sk => {},
        LangCode::Sl => {},
        LangCode::Sm => {},
        LangCode::Sn => {},
        LangCode::So => {},
        LangCode::Sq => {},
        LangCode::Sr => {},
        LangCode::Ss => {},
        LangCode::St => {},
        LangCode::Su => {},
        LangCode::Sv => {},
        LangCode::Sw => {},
        LangCode::Ta => {},
        LangCode::Te => {},
        LangCode::Tg => {},
        LangCode::Th => {},
        LangCode::Ti => {},
        LangCode::Tk => {},
        LangCode::Tl => {},
        LangCode::Tn => {},
        LangCode::To => {},
        LangCode::Tr => {},
        LangCode::Ts => {},
        LangCode::Tt => {},
        LangCode::Tw => {},
        LangCode::Ty => {},
        LangCode::Ug => {},
        LangCode::Uk => {},
        LangCode::Ur => {},
        LangCode::Uz => {},
        LangCode::Ve => {},
        LangCode::Vi => {},
        LangCode::Vo => {},
        LangCode::Wa => {},
        LangCode::Wo => {},
        LangCode::Xh => {},
        LangCode::Yi => {},
        LangCode::Yo => {},
        LangCode::Za => {},
        LangCode::Zh => {},
        LangCode::Zu => {},
    }
}

/// The language that a text names, if any: only a text of exactly two
/// characters can name one, the code of that language.
pub open spec fn code_of(t: Seq<char>) -> Option<LangCode> {
    if t.len() == 2 && exists|l: LangCode| code_pair(l) == (t[0], t[1]) {
        Some(choose|l: LangCode| code_pair(l) == (t[0], t[1]))
    } else {
        None
    }
}

/// The canonical text of every language reads back as that language.
pub proof fn lemma_code_round_trip(l: LangCode)
    ensures
        code_of(code_text(l)) == Some(l),
{
    let t = code_text(l);
    assert(code_pair(l) == (t[0], t[1]));
    let m = choose|m: LangCode| code_pair(m) == (t[0], t[1]);
    lemma_code_pair_injective(l, m);
}

impl LangCode {
    /// The language whose code is the two given characters, if there is one.
    pub fn from_pair(a: char, b: char) -> (r: Option<LangCode>)
        ensures
            match r {
                Some(l) => code_pair(l) == (a, b),
                None => forall|l: LangCode| code_pair(l) != (a, b),
            },
    {
        match (a, b) {
            ('a', 'a') => Some(LangCode::Aa),
            ('a', 'b') => Some(LangCode::Ab),
            ('a', 'e') => Some(LangCode::Ae),
            ('a', 'f') => Some(LangCode::Af),
            ('a', 'k') => Some(LangCode::Ak),
            ('a', 'm') => Some(LangCode::Am),
            ('a', 'n') => Some(LangCode::An),
            ('a', 'r') => Some(LangCode::Ar),
            ('a', 's') => Some(LangCode::As),
            ('a', 'v') => Some(LangCode::Av),
            ('a', 'y') => Some(LangCode::Ay),
            ('a', 'z') => Some(LangCode::Az),
            ('b', 'a') => Some(LangCode::Ba),
            ('b', 'e') => Some(LangCode::Be),
            ('b', 'g') => Some(LangCode::Bg),
            ('b', 'h') => Some(LangCode::Bh),
            ('b', 'i') => Some(LangCode::Bi),
            ('b', 'm') => Some(LangCode::Bm),
            ('b', 'n') => Some(LangCode::Bn),
            ('b', 'o') => Some(LangCode::Bo),
            ('b', 'r') => Some(LangCode::Br),
            ('b', 's') => Some(LangCode::Bs),
            ('c', 'a') => Some(LangCode::Ca),
            ('c', 'e') => Some(LangCode::Ce),
            ('c', 'h') => Some(LangCode::Ch),
            ('c', 'o') => Some(LangCode::Co),
            ('c', 'r') => Some(LangCode::Cr),
            ('c', 's') => Some(LangCode::Cs),
            ('c', 'u') => Some(LangCode::Cu),
            ('c', 'v') => Some(LangCode::Cv),
            ('c', 'y') => Some(LangCode::Cy),
            ('d', 'a') => Some(LangCode::Da),
            ('d', 'e') => Some(LangCode::De),
            ('d', 'v') => Some(LangCode::Dv),
            ('d', 'z') => Some(LangCode::Dz),
            ('e', 'e') => Some(LangCode::Ee),
            ('e', 'l') => Some(LangCode::El),
            ('e', 'n') => Some(LangCode::En),
            ('e', 'o') => Some(LangCode::Eo),
            ('e', 's') => Some(LangCode::Es),
            ('e', 't') => Some(LangCode::Et),
            ('e', 'u') => Some(LangCode::Eu),
            ('f', 'a') => Some(LangCode::Fa),
            ('f', 'f') => Some(LangCode::Ff),
            ('f', 'i') => Some(LangCode::Fi),
            ('f', 'j') => Some(LangCode::Fj),
            ('f', 'o') => Some(LangCode::Fo),
            ('f', 'r') => Some(LangCode::Fr),
            ('f', 'y') => Some(LangCode::Fy),
            ('g', 'a') => Some(LangCode::Ga),
            ('g', 'd') => Some(LangCode::Gd),
            ('g', 'l') => Some(LangCode::Gl),
            ('g', 'n') => Some(LangCode::Gn),
            ('g', 'u') => Some(LangCode::Gu),
            ('g', 'v') => Some(LangCode::Gv),
            ('h', 'a') => Some(LangCode::Ha),
            ('h', 'e') => Some(LangCode::He),
            ('h', 'i') => Some(LangCode::Hi),
            ('h', 'o') => Some(LangCode::Ho),
            ('h', 'r') => Some(LangCode::Hr),
            ('h', 't') => Some(LangCode::Ht),
            ('h', 'u') => Some(LangCode::Hu),
            ('h', 'y') => Some(LangCode::Hy),
            ('h', 'z') => Some(LangCode::Hz),
            ('i', 'a') => Some(LangCode::Ia),
            ('i', 'd') => Some(LangCode::Id),
            ('i', 'e') => Some(LangCode::Ie),
            ('i', 'g') => Some(LangCode::Ig),
            ('i', 'i') => Some(LangCode::Ii),
            ('i', 'k') => Some(LangCode::Ik),
            ('i', 'o') => Some(LangCode::Io),
            ('i', 's') => Some(LangCode::Is),
            ('i', 't') => Some(LangCode::It),
            ('i', 'u') => Some(LangCode::Iu),
            ('j', 'a') => Some(LangCode::Ja),
            ('j', 'v') => Some(LangCode::Jv),
            ('k', 'a') => Some(LangCode::Ka),
            ('k', 'g') => Some(LangCode::Kg),
            ('k', 'i') => Some(LangCode::Ki),
            ('k', 'j') => Some(LangCode::Kj),
            ('k', 'k') => Some(LangCode::Kk),
            ('k', 'l') => Some(LangCode::Kl),
            ('k', 'm') => Some(LangCode::Km),
            ('k', 'n') => Some(LangCode::Kn),
            ('k', 'o') => Some(LangCode::Ko),
            ('k', 'r') => Some(LangCode::Kr),
            ('k', 's') => Some(LangCode::Ks),
            ('k', 'u') => Some(LangCode::Ku),
            ('k', 'v') => Some(LangCode::Kv),
            ('k', 'w') => Some(LangCode::Kw),
            ('k', 'y') => Some(LangCode::Ky),
            ('l', 'a') => Some(LangCode::La),
            ('l', 'b') => Some(LangCode::Lb),
            ('l', 'g') => Some(LangCode::Lg),
            ('l', 'i') => Some(LangCode::Li),
            ('l', 'n') => Some(LangCode::Ln),
            ('l', 'o') => Some(LangCode::Lo),
            ('l', 't') => Some(LangCode::Lt),
            ('l', 'u') => Some(LangCode::Lu),
            ('l', 'v') => Some(LangCode::Lv),
            ('m', 'g') => Some(LangCode::Mg),
            ('m', 'h') => Some(LangCode::Mh),
            ('m', 'i') => Some(LangCode::Mi),
            ('m', 'k') => Some(LangCode::Mk),
            ('m', 'l') => Some(LangCode::Ml),
            ('m', 'n') => Some(LangCode::Mn),
            ('m', 'r') => Some(LangCode::Mr),
            ('m', 's') => Some(LangCode::Ms),
            ('m', 't') => Some(LangCode::Mt),
            ('m', 'y') => Some(LangCode::My),
            ('n', 'a') => Some(LangCode::Na),
            ('n', 'b') => Some(LangCode::Nb),
            ('n', 'd') => Some(LangCode::Nd),
            ('n', 'e') => Some(LangCode::Ne),
            ('n', 'g') => Some(LangCode::Ng),
            ('n', 'l') => Some(LangCode::Nl),
            ('n', 'n') => Some(LangCode::Nn),
            ('n', 'o') => Some(LangCode::No),
            ('n', 'r') => Some(LangCode::Nr),
            ('n', 'v') => Some(LangCode::Nv),
            ('n', 'y') => Some(LangCode::Ny),
            ('o', 'c') => Some(LangCode::Oc),
            ('o', 'j') => Some(LangCode::Oj),
            ('o', 'm') => Some(LangCode::Om),
            ('o', 'r') => Some(LangCode::Or),
            ('o', 's') => Some(LangCode::Os),
            ('p', 'a') => Some(LangCode::Pa),
            ('p', 'i') => Some(LangCode::Pi),
            ('p', 'l') => Some(LangCode::Pl),
            ('p', 's') => Some(LangCode::Ps),
            ('p', 't') => Some(LangCode::Pt),
            ('q', 'u') => Some(LangCode::Qu),
            ('r', 'm') => Some(LangCode::Rm),
            ('r', 'n') => Some(LangCode::Rn),
            ('r', 'o') => Some(LangCode::Ro),
            ('r', 'u') => Some(LangCode::Ru),
            ('r', 'w') => Some(LangCode::Rw),
            ('s', 'a') => Some(LangCode::Sa),
            ('s', 'c') => Some(LangCode::Sc),
            ('s', 'd') => Some(LangCode::Sd),
            ('s', 'e') => Some(LangCode::Se),
            ('s', 'g') => Some(LangCode::Sg),
            ('s', 'i') => Some(LangCode::Si),
            ('s', 'k') => Some(LangCode::Sk),
            ('s', 'l') => Some(LangCode::Sl),
            ('s', 'm') => Some(LangCode::Sm),
            ('s', 'n') => Some(LangCode::Sn),
            ('s', 'o') => Some(LangCode::So),
            ('s', 'q') => Some(LangCode::Sq),
            ('s', 'r') => Some(LangCode::Sr),
            ('s', 's') => Some(LangCode::Ss),
            ('s', 't') => Some(LangCode::St),
            ('s', 'u') => Some(LangCode::Su),
            ('s', 'v') => Some(LangCode::Sv),
            ('s', 'w') => Some(LangCode::Sw),
            ('t', 'a') => Some(LangCode::Ta),
            ('t', 'e') => Some(LangCode::Te),
            ('t', 'g') => Some(LangCode::Tg),
            ('t', 'h') => Some(LangCode::Th),
            ('t', 'i') => Some(LangCode::Ti),
            ('t', 'k') => Some(LangCode::Tk),
            ('t', 'l') => Some(LangCode::Tl),
            ('t', 'n') => Some(LangCode::Tn),
            ('t', 'o') => Some(LangCode::To),
            ('t', 'r') => Some(LangCode::Tr),
            ('t', 's') => Some(LangCode::Ts),
            ('t', 't') => Some(LangCode::Tt),
            ('t', 'w') => Some(LangCode::Tw),
            ('t', 'y') => Some(LangCode::Ty),
            ('u', 'g') => Some(LangCode::Ug),
            ('u', 'k') => Some(LangCode::Uk),
            ('u', 'r') => Some(LangCode::Ur),
            ('u', 'z') => Some(LangCode::Uz),
            ('v', 'e') => Some(LangCode::Ve),
            ('v', 'i') => Some(LangCode::Vi),
            ('v', 'o') => Some(LangCode::Vo),
            ('w', 'a') => Some(LangCode::Wa),
            ('w', 'o') => Some(LangCode::Wo),
            ('x', 'h') => Some(LangCode::Xh),
            ('y', 'i') => Some(LangCode::Yi),
            ('y', 'o') => Some(LangCode::Yo),
            ('z', 'a') => Some(LangCode::Za),
            ('z', 'h') => Some(LangCode::Zh),
            ('z', 'u') => Some(LangCode::Zu),
            _ => None,
        }
    }

    /// The language that `text` names, if any.
    pub fn parse(text: &str) -> (r: Option<LangCode>)
        ensures
            r == code_of(text@),
    {
        if text.unicode_len() != 2 {
            return None;
        }
        let r = LangCode::from_pair(text.get_char(0), text.get_char(1));
        proof {
            if let Some(l) = r {
                let m = choose|m: LangCode| code_pair(m) == (text@[0], text@[1]);
                lemma_code_pair_injective(l, m);
            }
        }
        r
    }

    /// The canonical two-letter code of the language.
    pub fn as_str(&self) -> (r: &'static str)
        ensures
            r@ == code_text(*self),
    {
        match self {
            LangCode::Aa => {
                proof { reveal_strlit("aa"); }
                "aa"
            },
            LangCode::Ab => {
                proof { reveal_strlit("ab"); }
                "ab"
            },
            LangCode::Ae => {
                proof { reveal_strlit("ae"); }
                "ae"
            },
            LangCode::Af => {
                proof { reveal_strlit("af"); }
                "af"
            },
            LangCode::Ak => {
                proof { reveal_strlit("ak"); }
                "ak"
            },
            LangCode::Am => {
                proof { reveal_strlit("am"); }
                "am"
            },
            LangCode::An => {
                proof { reveal_strlit("an"); }
                "an"
            },
            LangCode::Ar => {
                proof { reveal_strlit("ar"); }
                "ar"
            },
            LangCode::As => {
                proof { reveal_strlit("as"); }
                "as"
            },
            LangCode::Av => {
                proof { reveal_strlit("av"); }
                "av"
            },
            LangCode::Ay => {
                proof { reveal_strlit("ay"); }
                "ay"
            },
            LangCode::Az => {
                proof { reveal_strlit("az"); }
                "az"
            },
            LangCode::Ba => {
                proof { reveal_strlit("ba"); }
                "ba"
            },
            LangCode::Be => {
                proof { reveal_strlit("be"); }
                "be"
            },
            LangCode::Bg => {
                proof { reveal_strlit("bg"); }
                "bg"
            },
            LangCode::Bh => {
                proof { reveal_strlit("bh"); }
                "bh"
            },
            LangCode::Bi => {
                proof { reveal_strlit("bi"); }
                "bi"
            },
            LangCode::Bm => {
                proof { reveal_strlit("bm"); }
                "bm"
            },
            LangCode::Bn => {
                proof { reveal_strlit("bn"); }
                "bn"
            },
            LangCode::Bo => {
                proof { reveal_strlit("bo"); }
                "bo"
            },
            LangCode::Br => {
                proof { reveal_strlit("br"); }
                "br"
            },
            LangCode::Bs => {
                proof { reveal_strlit("bs"); }
                "bs"
            },
            LangCode::Ca => {
                proof { reveal_strlit("ca"); }
                "ca"
            },
            LangCode::Ce => {
                proof { reveal_strlit("ce"); }
                "ce"
            },
            LangCode::Ch => {
                proof { reveal_strlit("ch"); }
                "ch"
            },
            LangCode::Co => {
                proof { reveal_strlit("co"); }
                "co"
            },
            LangCode::Cr => {
                proof { reveal_strlit("cr"); }
                "cr"
            },
            LangCode::Cs => {
                proof { reveal_strlit("cs"); }
                "cs"
            },
            LangCode::Cu => {
                proof { reveal_strlit("cu"); }
                "cu"
            },
            LangCode::Cv => {
                proof { reveal_strlit("cv"); }
                "cv"
            },
            LangCode::Cy => {
                proof { reveal_strlit("cy"); }
                "cy"
            },
            LangCode::Da => {
                proof { reveal_strlit("da"); }
                "da"
            },
            LangCode::De => {
                proof { reveal_strlit("de"); }
                "de"
            },
            LangCode::Dv => {
                proof { reveal_strlit("dv"); }
                "dv"
            },
            LangCode::Dz => {
                proof { reveal_strlit("dz"); }
                "dz"
            },
            LangCode::Ee => {
                proof { reveal_strlit("ee"); }
                "ee"
            },
            LangCode::El => {
                proof { reveal_strlit("el"); }
                "el"
            },
            LangCode::En => {
                proof { reveal_strlit("en"); }
                "en"
            },
            LangCode::Eo => {
                proof { reveal_strlit("eo"); }
                "eo"
            },
            LangCode::Es => {
                proof { reveal_strlit("es"); }
                "es"
            },
            LangCode::Et => {
                proof { reveal_strlit("et"); }
                "et"
            },
            LangCode::Eu => {
                proof { reveal_strlit("eu"); }
                "eu"
            },
            LangCode::Fa => {
                proof { reveal_strlit("fa"); }
                "fa"
            },
            LangCode::Ff => {
                proof { reveal_strlit("ff"); }
                "ff"
            },
            LangCode::Fi => {
                proof { reveal_strlit("fi"); }
                "fi"
            },
            LangCode::Fj => {
                proof { reveal_strlit("fj"); }
                "fj"
            },
            LangCode::Fo => {
                proof { reveal_strlit("fo"); }
                "fo"
            },
            LangCode::Fr => {
                proof { reveal_strlit("fr"); }
                "fr"
            },
            LangCode::Fy => {
                proof { reveal_strlit("fy"); }
                "fy"
            },
            LangCode::Ga => {
                proof { reveal_strlit("ga"); }
                "ga"
            },
            LangCode::Gd => {
                proof { reveal_strlit("gd"); }
                "gd"
            },
            LangCode::Gl => {
                proof { reveal_strlit("gl"); }
                "gl"
            },
            LangCode::Gn => {
                proof { reveal_strlit("gn"); }
                "gn"
            },
            LangCode::Gu => {
                proof { reveal_strlit("gu"); }
                "gu"
            },
            LangCode::Gv => {
                proof { reveal_strlit("gv"); }
                "gv"
            },
            LangCode::Ha => {
                proof { reveal_strlit("ha"); }
                "ha"
            },
            LangCode::He => {
                proof { reveal_strlit("he"); }
                "he"
            },
            LangCode::Hi => {
                proof { reveal_strlit("hi"); }
                "hi"
            },
            LangCode::Ho => {
                proof { reveal_strlit("ho"); }
                "ho"
            },
            LangCode::Hr => {
                proof { reveal_strlit("hr"); }
                "hr"
            },
            LangCode::Ht => {
                proof { reveal_strlit("ht"); }
                "ht"
            },
            LangCode::Hu => {
                proof { reveal_strlit("hu"); }
                "hu"
            },
            LangCode::Hy => {
                proof { reveal_strlit("hy"); }
                "hy"
            },
            LangCode::Hz => {
                proof { reveal_strlit("hz"); }
                "hz"
            },
            LangCode::Ia => {
                proof { reveal_strlit("ia"); }
                "ia"
            },
            LangCode::Id => {
                proof { reveal_strlit("id"); }
                "id"
            },
            LangCode::Ie => {
                proof { reveal_strlit("ie"); }
                "ie"
            },
            LangCode::Ig => {
                proof { reveal_strlit("ig"); }
                "ig"
            },
            LangCode::Ii => {
                proof { reveal_strlit("ii"); }
                "ii"
            },
            LangCode::Ik => {
                proof { reveal_strlit("ik"); }
                "ik"
            },
            LangCode::Io => {
                proof { reveal_strlit("io"); }
                "io"
            },
            LangCode::Is => {
                proof { reveal_strlit("is"); }
                "is"
            },
            LangCode::It => {
                proof { reveal_strlit("it"); }
                "it"
            },
            LangCode::Iu => {
                proof { reveal_strlit("iu"); }
                "iu"
            },
            LangCode::Ja => {
                proof { reveal_strlit("ja"); }
                "ja"
            },
            LangCode::Jv => {
                proof { reveal_strlit("jv"); }
                "jv"
            },
            LangCode::Ka => {
                proof { reveal_strlit("ka"); }
                "ka"
            },
            LangCode::Kg => {
                proof { reveal_strlit("kg"); }
                "kg"
            },
            LangCode::Ki => {
                proof { reveal_strlit("ki"); }
                "ki"
            },
            LangCode::Kj => {
                proof { reveal_strlit("kj"); }
                "kj"
            },
            LangCode::Kk => {
                proof { reveal_strlit("kk"); }
                "kk"
            },
            LangCode::Kl => {
                proof { reveal_strlit("kl"); }
                "kl"
            },
            LangCode::Km => {
                proof { reveal_strlit("km"); }
                "km"
            },
            LangCode::Kn => {
                proof { reveal_strlit("kn"); }
                "kn"
            },
            LangCode::Ko => {
                proof { reveal_strlit("ko"); }
                "ko"
            },
            LangCode::Kr => {
                proof { reveal_strlit("kr"); }
                "kr"
            },
            LangCode::Ks => {
                proof { reveal_strlit("ks"); }
                "ks"
            },
            LangCode::Ku => {
                proof { reveal_strlit("ku"); }
                "ku"
            },
            LangCode::Kv => {
                proof { reveal_strlit("kv"); }
                "kv"
            },
            LangCode::Kw => {
                proof { reveal_strlit("kw"); }
                "kw"
            },
            LangCode::Ky => {
                proof { reveal_strlit("ky"); }
                "ky"
            },
            LangCode::La => {
                proof { reveal_strlit("la"); }
                "la"
            },
            LangCode::Lb => {
                proof { reveal_strlit("lb"); }
                "lb"
            },
            LangCode::Lg => {
                proof { reveal_strlit("lg"); }
                "lg"
            },
            LangCode::Li => {
                proof { reveal_strlit("li"); }
                "li"
            },
            LangCode::Ln => {
                proof { reveal_strlit("ln"); }
                "ln"
            },
            LangCode::Lo => {
                proof { reveal_strlit("lo"); }
                "lo"
            },
            LangCode::Lt => {
                proof { reveal_strlit("lt"); }
                "lt"
            },
            LangCode::Lu => {
                proof { reveal_strlit("lu"); }
                "lu"
            },
            LangCode::Lv => {
                proof { reveal_strlit("lv"); }
                "lv"
            },
            LangCode::Mg => {
                proof { reveal_strlit("mg"); }
                "mg"
            },
            LangCode::Mh => {
                proof { reveal_strlit("mh"); }
                "mh"
            },
            LangCode::Mi => {
                proof { reveal_strlit("mi"); }
                "mi"
            },
            LangCode::Mk => {
                proof { reveal_strlit("mk"); }
                "mk"
            },
            LangCode::Ml => {
                proof { reveal_strlit("ml"); }
                "ml"
            },
            LangCode::Mn => {
                proof { reveal_strlit("mn"); }
                "mn"
            },
            LangCode::Mr => {
                proof { reveal_strlit("mr"); }
                "mr"
            },
            LangCode::Ms => {
                proof { reveal_strlit("ms"); }
                "ms"
            },
            LangCode::Mt => {
                proof { reveal_strlit("mt"); }
                "mt"
            },
            LangCode::My => {
                proof { reveal_strlit("my"); }
                "my"
            },
            LangCode::Na => {
                proof { reveal_strlit("na"); }
                "na"
            },
            LangCode::Nb => {
                proof { reveal_strlit("nb"); }
                "nb"
            },
            LangCode::Nd => {
                proof { reveal_strlit("nd"); }
                "nd"
            },
            LangCode::Ne => {
                proof { reveal_strlit("ne"); }
                "ne"
            },
            LangCode::Ng => {
                proof { reveal_strlit("ng"); }
                "ng"
            },
            LangCode::Nl => {
                proof { reveal_strlit("nl"); }
                "nl"
            },
            LangCode::Nn => {
                proof { reveal_strlit("nn"); }
                "nn"
            },
            LangCode::No => {
                proof { reveal_strlit("no"); }
                "no"
            },
            LangCode::Nr => {
                proof { reveal_strlit("nr"); }
                "nr"
            },
            LangCode::Nv => {
                proof { reveal_strlit("nv"); }
                "nv"
            },
            LangCode::Ny => {
                proof { reveal_strlit("ny"); }
                "ny"
            },
            LangCode::Oc => {
                proof { reveal_strlit("oc"); }
                "oc"
            },
            LangCode::Oj => {
                proof { reveal_strlit("oj"); }
                "oj"
            },
            LangCode::Om => {
                proof { reveal_strlit("om"); }
                "om"
            },
            LangCode::Or => {
                proof { reveal_strlit("or"); }
                "or"
            },
            LangCode::Os => {
                proof { reveal_strlit("os"); }
                "os"
            },
            LangCode::Pa => {
                proof { reveal_strlit("pa"); }
                "pa"
            },
            LangCode::Pi => {
                proof { reveal_strlit("pi"); }
                "pi"
            },
            LangCode::Pl => {
                proof { reveal_strlit("pl"); }
                "pl"
            },
            LangCode::Ps => {
                proof { reveal_strlit("ps"); }
                "ps"
            },
            LangCode::Pt => {
                proof { reveal_strlit("pt"); }
                "pt"
            },
            LangCode::Qu => {
                proof { reveal_strlit("qu"); }
                "qu"
            },
            LangCode::Rm => {
                proof { reveal_strlit("rm"); }
                "rm"
            },
            LangCode::Rn => {
                proof { reveal_strlit("rn"); }
                "rn"
            },
            LangCode::Ro => {
                proof { reveal_strlit("ro"); }
                "ro"
            },
            LangCode::Ru => {
                proof { reveal_strlit("ru"); }
                "ru"
            },
            LangCode::Rw => {
                proof { reveal_strlit("rw"); }
                "rw"
            },
            LangCode::Sa => {
                proof { reveal_strlit("sa"); }
                "sa"
            },
            LangCode::Sc => {
                proof { reveal_strlit("sc"); }
                "sc"
            },
            LangCode::Sd => {
                proof { reveal_strlit("sd"); }
                "sd"
            },
            LangCode::Se => {
                proof { reveal_strlit("se"); }
                "se"
            },
            LangCode::Sg => {
                proof { reveal_strlit("sg"); }
                "sg"
            },
            LangCode::Si => {
                proof { reveal_strlit("si"); }
                "si"
            },
            LangCode::Sk => {
                proof { reveal_strlit("sk"); }
                "sk"
            },
            LangCode::Sl => {
                proof { reveal_strlit("sl"); }
                "sl"
            },
            LangCode::Sm => {
                proof { reveal_strlit("sm"); }
                "sm"
            },
            LangCode::Sn => {
                proof { reveal_strlit("sn"); }
                "sn"
            },
            LangCode::So => {
                proof { reveal_strlit("so"); }
                "so"
            },
            LangCode::Sq => {
                proof { reveal_strlit("sq"); }
                "sq"
            },
            LangCode::Sr => {
                proof { reveal_strlit("sr"); }
                "sr"
            },
            LangCode::Ss => {
                proof { reveal_strlit("ss"); }
                "ss"
            },
            LangCode::St => {
                proof { reveal_strlit("st"); }
                "st"
            },
            LangCode::Su => {
                proof { reveal_strlit("su"); }
                "su"
            },
            LangCode::Sv => {
                proof { reveal_strlit("sv"); }
                "sv"
            },
            LangCode::Sw => {
                proof { reveal_strlit("sw"); }
                "sw"
            },
            LangCode::Ta => {
                proof { reveal_strlit("ta"); }
                "ta"
            },
            LangCode::Te => {
                proof { reveal_strlit("te"); }
                "te"
            },
            LangCode::Tg => {
                proof { reveal_strlit("tg"); }
                "tg"
            },
            LangCode::Th => {
                proof { reveal_strlit("th"); }
                "th"
            },
            LangCode::Ti => {
                proof { reveal_strlit("ti"); }
                "ti"
            },
            LangCode::Tk => {
                proof { reveal_strlit("tk"); }
                "tk"
            },
            LangCode::Tl => {
                proof { reveal_strlit("tl"); }
                "tl"
            },
            LangCode::Tn => {
                proof { reveal_strlit("tn"); }
                "tn"
            },
            LangCode::To => {
                proof { reveal_strlit("to"); }
                "to"
            },
            LangCode::Tr => {
                proof { reveal_strlit("tr"); }
                "tr"
            },
            LangCode::Ts => {
                proof { reveal_strlit("ts"); }
                "ts"
            },
            LangCode::Tt => {
                proof { reveal_strlit("tt"); }
                "tt"
            },
            LangCode::Tw => {
                proof { reveal_strlit("tw"); }
                "tw"
            },
            LangCode::Ty => {
                proof { reveal_strlit("ty"); }
                "ty"
            },
            LangCode::Ug => {
                proof { reveal_strlit("ug"); }
                "ug"
            },
            LangCode::Uk => {
                proof { reveal_strlit("uk"); }
                "uk"
            },
            LangCode::Ur => {
                proof { reveal_strlit("ur"); }
                "ur"
            },
            LangCode::Uz => {
                proof { reveal_strlit("uz"); }
                "uz"
            },
            LangCode::Ve => {
                proof { reveal_strlit("ve"); }
                "ve"
            },
            LangCode::Vi => {
                proof { reveal_strlit("vi"); }
                "vi"
            },
            LangCode::Vo => {
                proof { reveal_strlit("vo"); }
                "vo"
            },
            LangCode::Wa => {
                proof { reveal_strlit("wa"); }
                "wa"
            },
            LangCode::Wo => {
                proof { reveal_strlit("wo"); }
                "wo"
            },
            LangCode::Xh => {
                proof { reveal_strlit("xh"); }
                "xh"
            },
            LangCode::Yi => {
                proof { reveal_strlit("yi"); }
                "yi"
            },
            LangCode::Yo => {
                proof { reveal_strlit("yo"); }
                "yo"
            },
            LangCode::Za => {
                proof { reveal_strlit("za"); }
                "za"
            },
            LangCode::Zh => {
                proof { reveal_strlit("zh"); }
                "zh"
            },
            LangCode::Zu => {
                proof { reveal_strlit("zu"); }
                "zu"
            },
        }
    }
}

} // verus!
