//! The core protocol: linking a parameter source against a program's
//! reflected interface once, then filling the source's current values into a
//! parameter sink on every draw.

use vstd::prelude::*;

use crate::interface::{BufferHandle, ProgramInfo, TextureParam, VarInfo};
use crate::uniform::UniformValue;

verus! {

/// An error type on either the parameter storage or the program side.
#[derive(Clone, PartialEq, Debug)]
pub enum ParameterError {
    /// A parameter source was expected but none was given, or the source's
    /// shape fundamentally cannot serve the interface.
    ParameterGeneralMismatch,
    /// Shader requested a uniform that the parameters do not have.
    MissingUniform(String),
    /// Shader requested a block that the parameters do not have.
    MissingBlock(String),
    /// Shader requested a texture that the parameters do not have.
    MissingTexture(String),
}

/// A growable storage of shader parameter values for one draw call.
///
/// A fill operation only ever appends to the three sequences, so several
/// parameter sources can be filled into the same sink in turn.
pub struct ParamValues {
    /// Uniform values to be provided.
    pub uniforms: Vec<UniformValue>,
    /// Uniform buffers to be provided.
    pub blocks: Vec<BufferHandle>,
    /// Textures to be provided.
    pub textures: Vec<TextureParam>,
}

impl ParamValues {
    /// An empty sink.
    pub fn new() -> (r: ParamValues)
        ensures
            r.uniforms@ == Seq::<UniformValue>::empty(),
            r.blocks@ == Seq::<BufferHandle>::empty(),
            r.textures@ == Seq::<TextureParam>::empty(),
    {
        ParamValues { uniforms: Vec::new(), blocks: Vec::new(), textures: Vec::new() }
    }
}

/// A named cell containing an arbitrary value. The name is set at
/// construction and never changes; the value may be overwritten by the
/// owning application code between draws.
pub struct NamedCell<T> {
    /// Name.
    pub name: String,
    /// Value.
    pub value: T,
}

/// `cells` holds a cell whose name is `name`.
pub open spec fn has_cell<T>(cells: Seq<NamedCell<T>>, name: Seq<char>) -> bool {
    exists|j: int| 0 <= j < cells.len() && #[trigger] cells[j].name@ == name
}

/// `i` is the position of the first cell in `cells` whose name is `name`.
pub open spec fn is_first_match<T>(cells: Seq<NamedCell<T>>, name: Seq<char>, i: int) -> bool {
    &&& 0 <= i < cells.len()
    &&& cells[i].name@ == name
    &&& forall|j: int| 0 <= j < i ==> #[trigger] cells[j].name@ != name
}

/// Every required variable in `vars` has a matching cell in `cells`.
pub open spec fn cells_serve<T>(cells: Seq<NamedCell<T>>, vars: Seq<VarInfo>) -> bool {
    forall|k: int| 0 <= k < vars.len() ==> has_cell(cells, #[trigger] vars[k].name@)
}

/// `k` is the first requirement in `vars` with no matching cell in `cells`.
pub open spec fn first_missing_at<T>(cells: Seq<NamedCell<T>>, vars: Seq<VarInfo>, k: int) -> bool {
    &&& 0 <= k < vars.len()
    &&& !has_cell(cells, vars[k].name@)
    &&& forall|j: int| 0 <= j < k ==> has_cell(cells, #[trigger] vars[j].name@)
}

/// The name of the first requirement in `vars` that no cell in `cells`
/// matches.
pub open spec fn first_missing_name<T>(cells: Seq<NamedCell<T>>, vars: Seq<VarInfo>) -> Seq<char> {
    vars[choose|k: int| first_missing_at(cells, vars, k)].name@
}

/// `ids` maps each requirement in `vars` to the position of its first
/// matching cell in `cells`, in requirement order.
pub open spec fn ids_match<T>(cells: Seq<NamedCell<T>>, vars: Seq<VarInfo>, ids: Seq<usize>) -> bool {
    &&& ids.len() == vars.len()
    &&& forall|k: int| 0 <= k < vars.len() ==> #[trigger] is_first_match(cells, vars[k].name@, ids[k] as int)
}

/// Every position in `ids` is a valid index into `cells`.
pub open spec fn ids_in_range<T>(cells: Seq<NamedCell<T>>, ids: Seq<usize>) -> bool {
    forall|k: int| 0 <= k < ids.len() ==> (#[trigger] ids[k]) < cells.len()
}

/// The values a fill reads, in link order: the current value of each indexed
/// cell.
pub open spec fn values_of<T>(cells: Seq<NamedCell<T>>, ids: Seq<usize>) -> Seq<T> {
    Seq::new(ids.len(), |k: int| cells[ids[k] as int].value)
}

/// There is at most one first missing requirement.
pub proof fn lemma_first_missing_unique<T>(
    cells: Seq<NamedCell<T>>,
    vars: Seq<VarInfo>,
    k1: int,
    k2: int,
)
    requires
        first_missing_at(cells, vars, k1),
        first_missing_at(cells, vars, k2),
    ensures
        k1 == k2,
{
}

/// Abstracts a parameter source: anything that can resolve a program's
/// required names once into a [`Link`](ShaderParam::Link) and afterwards
/// stream its current values into a [`ParamValues`] sink in the order the
/// program's reflection declares them.
pub trait ShaderParam: Sized {
    /// A helper structure to locate this source's values inside the shader.
    type Link;

    /// The linking contract: `r` is the outcome that linking `this` against
    /// `info` must produce. Each implementation pins down exactly which
    /// interfaces it serves, the link produced on success, and the error
    /// reported on failure.
    spec fn link_spec(this: Option<&Self>, info: &ProgramInfo, r: Result<Self::Link, ParameterError>) -> bool;

    /// `link` is usable for filling from this source: every recorded
    /// location is valid.
    spec fn link_wf(&self, link: &Self::Link) -> bool;

    /// The uniform values one fill appends, in link order.
    spec fn uniforms_filled(&self, link: &Self::Link) -> Seq<UniformValue>;

    /// The buffer handles one fill appends, in link order.
    spec fn blocks_filled(&self, link: &Self::Link) -> Seq<BufferHandle>;

    /// The texture parameters one fill appends, in link order.
    spec fn textures_filled(&self, link: &Self::Link) -> Seq<TextureParam>;

    /// Create a new link to be used with a given program.
    ///
    /// `this` is `None` when a program is validated against "no parameters
    /// provided".
    fn create_link(this: Option<&Self>, info: &ProgramInfo) -> (r: Result<Self::Link, ParameterError>)
        ensures
            Self::link_spec(this, info, r),
    ;

    /// Append all the contained parameter values to `out`, using a given
    /// link. Never fails, never clears or reorders what the sink already
    /// holds, and reads nothing outside the locations the link records.
    fn fill_params(&self, link: &Self::Link, out: &mut ParamValues)
        requires
            self.link_wf(link),
        ensures
            final(out).uniforms@ == old(out).uniforms@ + self.uniforms_filled(link),
            final(out).blocks@ == old(out).blocks@ + self.blocks_filled(link),
            final(out).textures@ == old(out).textures@ + self.textures_filled(link),
    ;
}

impl ShaderParam for () {
    type Link = ();

    /// The no-parameters source serves exactly the interfaces with no
    /// requirements; otherwise the first unmet requirement is reported,
    /// uniforms before blocks before textures.
    open spec fn link_spec(this: Option<&()>, info: &ProgramInfo, r: Result<(), ParameterError>) -> bool {
        if info.uniforms@.len() > 0 {
            r matches Err(e) && e matches ParameterError::MissingUniform(n)
                && n@ == info.uniforms@[0].name@
        } else if info.blocks@.len() > 0 {
            r matches Err(e) && e matches ParameterError::MissingBlock(n)
                && n@ == info.blocks@[0].name@
        } else if info.textures@.len() > 0 {
            r matches Err(e) && e matches ParameterError::MissingTexture(n)
                && n@ == info.textures@[0].name@
        } else {
            r is Ok
        }
    }

    open spec fn link_wf(&self, link: &()) -> bool {
        true
    }

    open spec fn uniforms_filled(&self, link: &()) -> Seq<UniformValue> {
        Seq::empty()
    }

    open spec fn blocks_filled(&self, link: &()) -> Seq<BufferHandle> {
        Seq::empty()
    }

    open spec fn textures_filled(&self, link: &()) -> Seq<TextureParam> {
        Seq::empty()
    }

    fn create_link(this: Option<&()>, info: &ProgramInfo) -> (r: Result<(), ParameterError>) {
        if info.uniforms.len() > 0 {
            return Err(ParameterError::MissingUniform(info.uniforms[0].name.clone()));
        }
        if info.blocks.len() > 0 {
            return Err(ParameterError::MissingBlock(info.blocks[0].name.clone()));
        }
        if info.textures.len() > 0 {
            return Err(ParameterError::MissingTexture(info.textures[0].name.clone()));
        }
        Ok(())
    }

    fn fill_params(&self, link: &(), out: &mut ParamValues) {
        proof {
            assert(old(out).uniforms@ + self.uniforms_filled(link) =~= old(out).uniforms@);
            assert(old(out).blocks@ + self.blocks_filled(link) =~= old(out).blocks@);
            assert(old(out).textures@ + self.textures_filled(link) =~= old(out).textures@);
        }
    }
}

/// A dictionary of parameters, meant to be shared between different
/// programs: three ordered sequences of named, independently mutable cells.
///
/// The dictionary is exclusively owned by the render thread; cell values are
/// overwritten in place by the surrounding application code between draws.
pub struct ParamDictionary {
    /// Uniform dictionary.
    pub uniforms: Vec<NamedCell<UniformValue>>,
    /// Block dictionary.
    pub blocks: Vec<NamedCell<BufferHandle>>,
    /// Texture dictionary.
    pub textures: Vec<NamedCell<TextureParam>>,
}

/// Redirects program input to the relevant [`ParamDictionary`] cell: one
/// cell position per requirement, in the interface's declaration order.
#[derive(Clone, Debug)]
pub struct ParamDictionaryLink {
    /// Position of the matching uniform cell, per required uniform.
    pub uniforms: Vec<usize>,
    /// Position of the matching block cell, per required block.
    pub blocks: Vec<usize>,
    /// Position of the matching texture cell, per required texture.
    pub textures: Vec<usize>,
}

/// Find the first cell named `name`, scanning front to back.
fn find_cell<T>(cells: &Vec<NamedCell<T>>, name: &String) -> (r: Option<usize>)
    ensures
        match r {
            Some(i) => is_first_match(cells@, name@, i as int),
            None => !has_cell(cells@, name@),
        },
{
    let mut i: usize = 0;
    while i < cells.len()
        invariant
            i <= cells@.len(),
            forall|j: int| 0 <= j < i ==> #[trigger] cells@[j].name@ != name@,
        decreases cells@.len() - i,
    {
        if cells[i].name == *name {
            return Some(i);
        }
        i = i + 1;
    }
    None
}

/// Resolve every required name in `vars` to the position of its first
/// matching cell, or report the name of the first requirement that has
/// none.
fn link_cells<T>(cells: &Vec<NamedCell<T>>, vars: &Vec<VarInfo>) -> (r: Result<Vec<usize>, String>)
    ensures
        match r {
            Ok(ids) => ids_match(cells@, vars@, ids@),
            Err(n) => !cells_serve(cells@, vars@) && n@ == first_missing_name(cells@, vars@),
        },
{
    let mut ids: Vec<usize> = Vec::new();
    let mut k: usize = 0;
    while k < vars.len()
        invariant
            k <= vars@.len(),
            ids@.len() == k,
            forall|j: int| 0 <= j < k ==> #[trigger] is_first_match(cells@, vars@[j].name@, ids@[j] as int),
        decreases vars@.len() - k,
    {
        match find_cell(cells, &vars[k].name) {
            Some(i) => {
                ids.push(i);
            },
            None => {
                proof {
                    assert forall|j: int| 0 <= j < k implies has_cell(cells@, #[trigger] vars@[j].name@) by {
                        assert(is_first_match(cells@, vars@[j].name@, ids@[j] as int));
                        assert(cells@[ids@[j] as int].name@ == vars@[j].name@);
                    }
                    assert(first_missing_at(cells@, vars@, k as int));
                    let kc = choose|kk: int| first_missing_at(cells@, vars@, kk);
                    lemma_first_missing_unique(cells@, vars@, k as int, kc);
                }
                return Err(vars[k].name.clone());
            },
        }
        k = k + 1;
    }
    Ok(ids)
}

/// Append to `out` a copy of the current value of each indexed cell, in
/// index order.
fn fill_from<T: Copy>(cells: &Vec<NamedCell<T>>, ids: &Vec<usize>, out: &mut Vec<T>)
    requires
        ids_in_range(cells@, ids@),
    ensures
        final(out)@ == old(out)@ + values_of(cells@, ids@),
{
    let mut k: usize = 0;
    while k < ids.len()
        invariant
            k <= ids@.len(),
            ids_in_range(cells@, ids@),
            out@ == old(out)@ + values_of(cells@, ids@.take(k as int)),
        decreases ids@.len() - k,
    {
        let id = ids[k];
        out.push(cells[id].value);
        proof {
            assert(values_of(cells@, ids@.take(k as int + 1)) =~= values_of(
                cells@,
                ids@.take(k as int),
            ).push(cells@[ids@[k as int] as int].value));
            assert(out@ =~= old(out)@ + values_of(cells@, ids@.take(k as int + 1)));
        }
        k = k + 1;
    }
    proof {
        assert(ids@.take(ids@.len() as int) =~= ids@);
    }
}

impl ShaderParam for ParamDictionary {
    type Link = ParamDictionaryLink;

    /// A dictionary serves an interface exactly when every required name, in
    /// each category, has a matching cell; the link then records the first
    /// matching position per requirement. Failures are reported for the
    /// first unserved category in the order uniforms, blocks, textures,
    /// naming the first requirement within it that no cell matches. An
    /// absent dictionary serves only an interface with no requirements.
    open spec fn link_spec(
        this: Option<&ParamDictionary>,
        info: &ProgramInfo,
        r: Result<ParamDictionaryLink, ParameterError>,
    ) -> bool {
        match this {
            None => {
                if info.spec_is_empty() {
                    r matches Ok(l) && l.uniforms@.len() == 0 && l.blocks@.len() == 0
                        && l.textures@.len() == 0
                } else {
                    r matches Err(e) && e is ParameterGeneralMismatch
                }
            },
            Some(d) => {
                if !cells_serve(d.uniforms@, info.uniforms@) {
                    r matches Err(e) && e matches ParameterError::MissingUniform(n)
                        && n@ == first_missing_name(d.uniforms@, info.uniforms@)
                } else if !cells_serve(d.blocks@, info.blocks@) {
                    r matches Err(e) && e matches ParameterError::MissingBlock(n)
                        && n@ == first_missing_name(d.blocks@, info.blocks@)
                } else if !cells_serve(d.textures@, info.textures@) {
                    r matches Err(e) && e matches ParameterError::MissingTexture(n)
                        && n@ == first_missing_name(d.textures@, info.textures@)
                } else {
                    r matches Ok(l) && ids_match(d.uniforms@, info.uniforms@, l.uniforms@)
                        && ids_match(d.blocks@, info.blocks@, l.blocks@)
                        && ids_match(d.textures@, info.textures@, l.textures@)
                }
            },
        }
    }

    open spec fn link_wf(&self, link: &ParamDictionaryLink) -> bool {
        &&& ids_in_range(self.uniforms@, link.uniforms@)
        &&& ids_in_range(self.blocks@, link.blocks@)
        &&& ids_in_range(self.textures@, link.textures@)
    }

    open spec fn uniforms_filled(&self, link: &ParamDictionaryLink) -> Seq<UniformValue> {
        values_of(self.uniforms@, link.uniforms@)
    }

    open spec fn blocks_filled(&self, link: &ParamDictionaryLink) -> Seq<BufferHandle> {
        values_of(self.blocks@, link.blocks@)
    }

    open spec fn textures_filled(&self, link: &ParamDictionaryLink) -> Seq<TextureParam> {
        values_of(self.textures@, link.textures@)
    }

    fn create_link(this: Option<&ParamDictionary>, info: &ProgramInfo) -> (r: Result<
        ParamDictionaryLink,
        ParameterError,
    >) {
        let d = match this {
            Some(d) => d,
            None => {
                if info.uniforms.len() == 0 && info.blocks.len() == 0 && info.textures.len() == 0 {
                    return Ok(
                        ParamDictionaryLink {
                            uniforms: Vec::new(),
                            blocks: Vec::new(),
                            textures: Vec::new(),
                        },
                    );
                }
                return Err(ParameterError::ParameterGeneralMismatch);
            },
        };
        let uniforms = match link_cells(&d.uniforms, &info.uniforms) {
            Ok(ids) => ids,
            Err(name) => {
                return Err(ParameterError::MissingUniform(name));
            },
        };
        let blocks = match link_cells(&d.blocks, &info.blocks) {
            Ok(ids) => ids,
            Err(name) => {
                proof {
                    lemma_ids_match_serve(d.uniforms@, info.uniforms@, uniforms@);
                }
                return Err(ParameterError::MissingBlock(name));
            },
        };
        let textures = match link_cells(&d.textures, &info.textures) {
            Ok(ids) => ids,
            Err(name) => {
                proof {
                    lemma_ids_match_serve(d.uniforms@, info.uniforms@, uniforms@);
                    lemma_ids_match_serve(d.blocks@, info.blocks@, blocks@);
                }
                return Err(ParameterError::MissingTexture(name));
            },
        };
        proof {
            lemma_ids_match_serve(d.uniforms@, info.uniforms@, uniforms@);
            lemma_ids_match_serve(d.blocks@, info.blocks@, blocks@);
            lemma_ids_match_serve(d.textures@, info.textures@, textures@);
        }
        Ok(ParamDictionaryLink { uniforms, blocks, textures })
    }

    fn fill_params(&self, link: &ParamDictionaryLink, out: &mut ParamValues) {
        fill_from(&self.uniforms, &link.uniforms, &mut out.uniforms);
        fill_from(&self.blocks, &link.blocks, &mut out.blocks);
        fill_from(&self.textures, &link.textures, &mut out.textures);
    }
}

/// A resolved position list implies that every requirement is served and
/// that every recorded position is valid.
pub proof fn lemma_ids_match_serve<T>(cells: Seq<NamedCell<T>>, vars: Seq<VarInfo>, ids: Seq<usize>)
    requires
        ids_match(cells, vars, ids),
    ensures
        cells_serve(cells, vars),
        ids_in_range(cells, ids),
{
    assert forall|k: int| 0 <= k < vars.len() implies has_cell(cells, #[trigger] vars[k].name@) by {
        assert(is_first_match(cells, vars[k].name@, ids[k] as int));
        assert(cells[ids[k] as int].name@ == vars[k].name@);
    }
    assert forall|k: int| 0 <= k < ids.len() implies (#[trigger] ids[k]) < cells.len() by {
        assert(is_first_match(cells, vars[k].name@, ids[k] as int));
    }
}

} // verus!
