//! Keychain entries as plain values, and their conversions to and from the
//! parser crate's own keychain types.
use vstd::prelude::*;

use crate::feature::{
    code_of_feature, feature_of_code, feature_point_code, lemma_feature_code_round_trip,
    u32_to_feature_point,
};
use dji_log_parser::keychain::{
    EncodedKeychainFeaturePoint, KeychainFeaturePoint, KeychainsRequest,
};

verus! {

/// One plaintext keychain entry: a feature-area code with its AES key and IV.
#[derive(Debug, Clone)]
pub struct KeychainFeaturePointWrapper {
    pub feature_point: u32,
    pub aes_key: String,
    pub aes_iv: String,
}

/// One encrypted keychain entry: a feature-area code with its ciphertext.
#[derive(Debug, Clone)]
pub struct EncodedKeychainFeaturePointWrapper {
    pub feature_point: u32,
    pub aes_ciphertext: String,
}

/// The transmissible request for a log's keychains: the endpoint's version and
/// department, and the encrypted entries grouped by frame group.
#[derive(Debug, Clone)]
pub struct KeychainsRequestWrapper {
    pub version: u16,
    pub department: u8,
    pub keychains: Vec<Vec<EncodedKeychainFeaturePointWrapper>>,
}

/// The parser's entry for a plain entry: the code decoded to its feature area,
/// key and IV unchanged.
pub open spec fn outside_point_of(w: KeychainFeaturePointWrapper) -> KeychainFeaturePoint {
    KeychainFeaturePoint {
        feature_point: feature_of_code(w.feature_point),
        aes_key: w.aes_key,
        aes_iv: w.aes_iv,
    }
}

/// The plain entry for a parser entry: the feature area as its code, key and
/// IV unchanged.
pub open spec fn plain_point_of(p: KeychainFeaturePoint) -> KeychainFeaturePointWrapper {
    KeychainFeaturePointWrapper {
        feature_point: code_of_feature(p.feature_point),
        aes_key: p.aes_key,
        aes_iv: p.aes_iv,
    }
}

/// The plain entry for an encrypted parser entry.
pub open spec fn plain_encoded_of(p: EncodedKeychainFeaturePoint) -> EncodedKeychainFeaturePointWrapper {
    EncodedKeychainFeaturePointWrapper {
        feature_point: code_of_feature(p.feature_point),
        aes_ciphertext: p.aes_ciphertext,
    }
}

/// The groups of a nested vector, as a sequence of sequences.
pub open spec fn groups<T>(v: Seq<Vec<T>>) -> Seq<Seq<T>> {
    v.map_values(|g: Vec<T>| g@)
}

/// Mapping a sequence extended by one element gives the mapped sequence
/// extended by that element's image.
pub proof fn lemma_map_push<A, B>(s: Seq<A>, x: A, f: spec_fn(A) -> B)
    ensures
        s.push(x).map_values(f) == s.map_values(f).push(f(x)),
{
    assert(s.push(x).map_values(f) =~= s.map_values(f).push(f(x)));
}

/// Plain keychain groups as the parser's groups, entry by entry.
pub open spec fn outside_groups(c: Seq<Vec<KeychainFeaturePointWrapper>>) -> Seq<Seq<KeychainFeaturePoint>> {
    c.map_values(|g: Vec<KeychainFeaturePointWrapper>| g@.map_values(|w| outside_point_of(w)))
}

/// The parser's keychain groups as plain groups, entry by entry.
pub open spec fn plain_groups(c: Seq<Vec<KeychainFeaturePoint>>) -> Seq<Seq<KeychainFeaturePointWrapper>> {
    c.map_values(|g: Vec<KeychainFeaturePoint>| g@.map_values(|p| plain_point_of(p)))
}

/// The parser's encrypted groups as plain groups, entry by entry.
pub open spec fn plain_encoded_groups(c: Seq<Vec<EncodedKeychainFeaturePoint>>) -> Seq<Seq<EncodedKeychainFeaturePointWrapper>> {
    c.map_values(|g: Vec<EncodedKeychainFeaturePoint>| g@.map_values(|p| plain_encoded_of(p)))
}

fn group_to_outside(g: &Vec<KeychainFeaturePointWrapper>) -> (r: Vec<KeychainFeaturePoint>)
    ensures
        r@ == g@.map_values(|w| outside_point_of(w)),
{
    let mut r: Vec<KeychainFeaturePoint> = Vec::new();
    let mut j: usize = 0;
    while j < g.len()
        invariant
            j <= g@.len(),
            r@ == g@.subrange(0, j as int).map_values(|w| outside_point_of(w)),
        decreases g@.len() - j,
    {
        let w = &g[j];
        let fp = u32_to_feature_point(w.feature_point);
        r.push(KeychainFeaturePoint { feature_point: fp, aes_key: w.aes_key.clone(), aes_iv: w.aes_iv.clone() });
        j += 1;
        assert(g@.subrange(0, j as int) =~= g@.subrange(0, j - 1).push(g@[j - 1]));
        assert(r@ =~= g@.subrange(0, j as int).map_values(|w| outside_point_of(w)));
    }
    assert(g@.subrange(0, j as int) =~= g@);
    r
}

/// Converts plain keychain groups to the parser's groups: each entry's code is
/// decoded to its feature area (unknown codes to the base feature), key and IV
/// are kept, and groups and their order are kept.
pub fn keychains_to_outside(chains: &Vec<Vec<KeychainFeaturePointWrapper>>) -> (r: Vec<Vec<KeychainFeaturePoint>>)
    ensures
        groups(r@) == outside_groups(chains@),
{
    let mut r: Vec<Vec<KeychainFeaturePoint>> = Vec::new();
    let mut i: usize = 0;
    while i < chains.len()
        invariant
            i <= chains@.len(),
            r@.len() == i,
            groups(r@) == outside_groups(chains@.subrange(0, i as int)),
        decreases chains@.len() - i,
    {
        let g = group_to_outside(&chains[i]);
        let ghost prev = r@;
        r.push(g);
        i += 1;
        proof {
            let before = chains@.subrange(0, i - 1);
            assert(chains@.subrange(0, i as int) =~= before.push(chains@[i - 1]));
            lemma_map_push(prev, g, |v: Vec<KeychainFeaturePoint>| v@);
            lemma_map_push(before, chains@[i - 1], |c: Vec<KeychainFeaturePointWrapper>| c@.map_values(|w| outside_point_of(w)));
        }
    }
    assert(chains@.subrange(0, i as int) =~= chains@);
    r
}

fn group_to_plain(g: &Vec<KeychainFeaturePoint>) -> (r: Vec<KeychainFeaturePointWrapper>)
    ensures
        r@ == g@.map_values(|p| plain_point_of(p)),
{
    let mut r: Vec<KeychainFeaturePointWrapper> = Vec::new();
    let mut j: usize = 0;
    while j < g.len()
        invariant
            j <= g@.len(),
            r@ == g@.subrange(0, j as int).map_values(|p| plain_point_of(p)),
        decreases g@.len() - j,
    {
        let p = &g[j];
        let code = feature_point_code(p.feature_point);
        r.push(KeychainFeaturePointWrapper { feature_point: code, aes_key: p.aes_key.clone(), aes_iv: p.aes_iv.clone() });
        j += 1;
        assert(g@.subrange(0, j as int) =~= g@.subrange(0, j - 1).push(g@[j - 1]));
        assert(r@ =~= g@.subrange(0, j as int).map_values(|p| plain_point_of(p)));
    }
    assert(g@.subrange(0, j as int) =~= g@);
    r
}

/// Converts the parser's keychain groups to plain groups: each entry's feature
/// area becomes its code, key and IV are kept, and groups and their order are kept.
pub fn keychains_from_outside(chains: &Vec<Vec<KeychainFeaturePoint>>) -> (r: Vec<Vec<KeychainFeaturePointWrapper>>)
    ensures
        groups(r@) == plain_groups(chains@),
{
    let mut r: Vec<Vec<KeychainFeaturePointWrapper>> = Vec::new();
    let mut i: usize = 0;
    while i < chains.len()
        invariant
            i <= chains@.len(),
            r@.len() == i,
            groups(r@) == plain_groups(chains@.subrange(0, i as int)),
        decreases chains@.len() - i,
    {
        let g = group_to_plain(&chains[i]);
        let ghost prev = r@;
        r.push(g);
        i += 1;
        proof {
            let before = chains@.subrange(0, i - 1);
            assert(chains@.subrange(0, i as int) =~= before.push(chains@[i - 1]));
            lemma_map_push(prev, g, |v: Vec<KeychainFeaturePointWrapper>| v@);
            lemma_map_push(before, chains@[i - 1], |c: Vec<KeychainFeaturePoint>| c@.map_values(|p| plain_point_of(p)));
        }
    }
    assert(chains@.subrange(0, i as int) =~= chains@);
    r
}

fn encoded_group_to_plain(g: &Vec<EncodedKeychainFeaturePoint>) -> (r: Vec<EncodedKeychainFeaturePointWrapper>)
    ensures
        r@ == g@.map_values(|p| plain_encoded_of(p)),
{
    let mut r: Vec<EncodedKeychainFeaturePointWrapper> = Vec::new();
    let mut j: usize = 0;
    while j < g.len()
        invariant
            j <= g@.len(),
            r@ == g@.subrange(0, j as int).map_values(|p| plain_encoded_of(p)),
        decreases g@.len() - j,
    {
        let p = &g[j];
        let code = feature_point_code(p.feature_point);
        r.push(EncodedKeychainFeaturePointWrapper { feature_point: code, aes_ciphertext: p.aes_ciphertext.clone() });
        j += 1;
        assert(g@.subrange(0, j as int) =~= g@.subrange(0, j - 1).push(g@[j - 1]));
        assert(r@ =~= g@.subrange(0, j as int).map_values(|p| plain_encoded_of(p)));
    }
    assert(g@.subrange(0, j as int) =~= g@);
    r
}

/// Converts the parser's keychains request to its plain form: version and
/// department are kept, and every group keeps its entries, in order, with each
/// ciphertext unchanged.
pub fn request_from_outside(req: &KeychainsRequest) -> (r: KeychainsRequestWrapper)
    ensures
        r.version == req.version,
        r.department == req.department,
        groups(r.keychains@) == plain_encoded_groups(req.keychains@),
{
    let mut out: Vec<Vec<EncodedKeychainFeaturePointWrapper>> = Vec::new();
    let mut i: usize = 0;
    while i < req.keychains.len()
        invariant
            i <= req.keychains@.len(),
            out@.len() == i,
            groups(out@) == plain_encoded_groups(req.keychains@.subrange(0, i as int)),
        decreases req.keychains@.len() - i,
    {
        let g = encoded_group_to_plain(&req.keychains[i]);
        let ghost prev = out@;
        out.push(g);
        i += 1;
        proof {
            let before = req.keychains@.subrange(0, i - 1);
            assert(req.keychains@.subrange(0, i as int) =~= before.push(req.keychains@[i - 1]));
            lemma_map_push(prev, g, |v: Vec<EncodedKeychainFeaturePointWrapper>| v@);
            lemma_map_push(before, req.keychains@[i - 1], |c: Vec<EncodedKeychainFeaturePoint>| c@.map_values(|p| plain_encoded_of(p)));
        }
    }
    assert(req.keychains@.subrange(0, i as int) =~= req.keychains@);
    KeychainsRequestWrapper { version: req.version, department: req.department, keychains: out }
}

/// The request's plain groups are exactly the parser's groups: as many groups,
/// each with as many entries, and every ciphertext unchanged, byte for byte.
pub proof fn lemma_request_group_integrity(req: KeychainsRequest)
    ensures
        plain_encoded_groups(req.keychains@).len() == req.keychains@.len(),
        forall|i: int| #![auto] 0 <= i < req.keychains@.len()
            ==> plain_encoded_groups(req.keychains@)[i].len() == req.keychains@[i]@.len(),
        forall|i: int, j: int| #![auto] 0 <= i < req.keychains@.len() && 0 <= j < req.keychains@[i]@.len()
            ==> plain_encoded_groups(req.keychains@)[i][j].aes_ciphertext == req.keychains@[i]@[j].aes_ciphertext,
{
}

/// Converting the parser's keychains to plain keychains and back gives the
/// parser's keychains again, group by group and entry by entry.
pub proof fn lemma_keychains_round_trip(c: Seq<Vec<KeychainFeaturePoint>>)
    ensures
        plain_groups(c).len() == c.len(),
        forall|i: int| #![auto] 0 <= i < c.len() ==> plain_groups(c)[i].len() == c[i]@.len(),
        forall|i: int, j: int| #![auto] 0 <= i < c.len() && 0 <= j < c[i]@.len()
            ==> outside_point_of(plain_groups(c)[i][j]) == c[i]@[j],
{
    assert forall|i: int, j: int| #![auto] 0 <= i < c.len() && 0 <= j < c[i]@.len()
        implies outside_point_of(plain_groups(c)[i][j]) == c[i]@[j] by {
        lemma_feature_code_round_trip(c[i]@[j].feature_point);
    }
}

/// Converting plain keychains whose codes are all known to the parser's
/// keychains and back gives the plain keychains again.
pub proof fn lemma_plain_keychains_round_trip(c: Seq<Vec<KeychainFeaturePointWrapper>>)
    requires
        forall|i: int, j: int| 0 <= i < c.len() && 0 <= j < c[i]@.len()
            ==> 1 <= #[trigger] c[i]@[j].feature_point <= 15,
    ensures
        outside_groups(c).len() == c.len(),
        forall|i: int| #![auto] 0 <= i < c.len() ==> outside_groups(c)[i].len() == c[i]@.len(),
        forall|i: int, j: int| #![auto] 0 <= i < c.len() && 0 <= j < c[i]@.len()
            ==> plain_point_of(outside_groups(c)[i][j]) == c[i]@[j],
{
}

} // verus!
