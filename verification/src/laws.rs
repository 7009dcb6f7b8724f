//! The general guarantees of the linking and filling machinery, stated over
//! the contracts in [`crate::shade`] and proved once for every input.

use vstd::prelude::*;

use crate::interface::{ProgramInfo, VarInfo};
use crate::shade::{
    ids_match, is_first_match, lemma_ids_match_serve, values_of, NamedCell, ParamDictionary,
    ParamDictionaryLink, ParameterError, ShaderParam,
};

verus! {

/// `create_link` over the no-parameter source succeeds exactly when the
/// interface has no required uniforms, blocks or textures; otherwise it
/// fails naming the first unmet requirement, uniforms checked before blocks
/// before textures.
pub proof fn lemma_no_params_link(this: Option<&()>, info: &ProgramInfo, r: Result<(), ParameterError>)
    requires
        <() as ShaderParam>::link_spec(this, info, r),
    ensures
        r is Ok <==> info.spec_is_empty(),
        info.uniforms@.len() > 0 ==> (r matches Err(e) && e matches ParameterError::MissingUniform(n)
            && n@ == info.uniforms@[0].name@),
        info.uniforms@.len() == 0 && info.blocks@.len() > 0 ==> (r matches Err(e)
            && e matches ParameterError::MissingBlock(n) && n@ == info.blocks@[0].name@),
        info.uniforms@.len() == 0 && info.blocks@.len() == 0 && info.textures@.len() > 0 ==> (
        r matches Err(e) && e matches ParameterError::MissingTexture(n) && n@
            == info.textures@[0].name@),
{
}

/// A link a dictionary produced is usable for filling from it — the link's
/// existence is the proof that filling cannot fail — and its three position
/// lists are exactly as long as the interface's requirement lists.
pub proof fn lemma_link_gives_wf(d: &ParamDictionary, info: &ProgramInfo, l: ParamDictionaryLink)
    requires
        <ParamDictionary as ShaderParam>::link_spec(Some(d), info, Ok(l)),
    ensures
        d.link_wf(&l),
        l.uniforms@.len() == info.uniforms@.len(),
        l.blocks@.len() == info.blocks@.len(),
        l.textures@.len() == info.textures@.len(),
{
    lemma_ids_match_serve(d.uniforms@, info.uniforms@, l.uniforms@);
    lemma_ids_match_serve(d.blocks@, info.blocks@, l.blocks@);
    lemma_ids_match_serve(d.textures@, info.textures@, l.textures@);
}

/// Sink order follows interface order, not dictionary order: the `k`-th
/// value resolved through a position list is the current value of the first
/// cell whose name matches the `k`-th requirement.
pub proof fn lemma_fill_follows_interface<T>(
    cells: Seq<NamedCell<T>>,
    vars: Seq<VarInfo>,
    ids: Seq<usize>,
    k: int,
)
    requires
        ids_match(cells, vars, ids),
        0 <= k < vars.len(),
    ensures
        is_first_match(cells, vars[k].name@, ids[k] as int),
        values_of(cells, ids)[k] == cells[ids[k] as int].value,
{
}

/// A fill observes the latest cell values: each value it appends is read
/// from the dictionary at the moment of the call, never cached inside the
/// link.
pub proof fn lemma_fill_observes_current(d: &ParamDictionary, link: &ParamDictionaryLink, k: int)
    requires
        d.link_wf(link),
    ensures
        0 <= k < link.uniforms@.len() ==> d.uniforms_filled(link)[k] == d.uniforms@[link.uniforms@[k] as int].value,
        0 <= k < link.blocks@.len() ==> d.blocks_filled(link)[k] == d.blocks@[link.blocks@[k] as int].value,
        0 <= k < link.textures@.len() ==> d.textures_filled(link)[k] == d.textures@[link.textures@[k] as int].value,
{
}

/// Overwriting cell values between draws never invalidates a link: as long
/// as the dictionary's cell layout is unchanged — the same number of cells
/// per category — a link that was usable stays usable.
pub proof fn lemma_link_survives_overwrite(
    d1: &ParamDictionary,
    d2: &ParamDictionary,
    link: &ParamDictionaryLink,
)
    requires
        d1.link_wf(link),
        d2.uniforms@.len() == d1.uniforms@.len(),
        d2.blocks@.len() == d1.blocks@.len(),
        d2.textures@.len() == d1.textures@.len(),
    ensures
        d2.link_wf(link),
{
}

/// What a fill appends does not depend on what the sink already holds:
/// filling the same source with the same link appends the same values both
/// times, whatever each call found in the sink.
pub proof fn lemma_fill_appends_same<T>(s1: Seq<T>, s2: Seq<T>, vals: Seq<T>)
    ensures
        (s1 + vals).skip(s1.len() as int) == vals,
        (s1 + vals).skip(s1.len() as int) == (s2 + vals).skip(s2.len() as int),
{
    assert((s1 + vals).skip(s1.len() as int) =~= vals);
    assert((s2 + vals).skip(s2.len() as int) =~= vals);
}

/// The sink is append-only: after a second source is filled into the same
/// sink, everything the first fill left behind — the prior contents plus the
/// first source's values — is still there, as a prefix.
pub proof fn lemma_sink_append_only<T>(base: Seq<T>, first: Seq<T>, second: Seq<T>)
    ensures
        ((base + first) + second).take((base + first).len() as int) == base + first,
{
    assert(((base + first) + second).take((base + first).len() as int) =~= base + first);
}

} // verus!
