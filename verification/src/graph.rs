//! Pass orchestrator: builds the fixed compute-pass graph against the
//! shared image set.
//!
//! `DrawOrchestrator::build` validates every identity a pass refers to
//! against the number of shared images, sizes the images to the current
//! target resolution, registers one program per pass with the store, and
//! computes every dispatch size eagerly. Construction either succeeds as a
//! whole or fails with a typed error: an out-of-bounds identity is caught
//! before anything is allocated or registered, and the first compile
//! failure aborts the build.

use vstd::prelude::*;

use crate::store::PipelineConfig;
use crate::store::PipelineErr;
use crate::store::PipelineKey;
use crate::store::PipelineStore;
use crate::store::copy_words;

verus! {

/// Work-group edge length every full-screen program is compiled for.
pub const WORKGROUP_SIZE: u32 = 32;

/// Size in bytes of the constant block pushed before every dispatch: the
/// frame time and the two image identities.
pub const PUSH_CONSTANT_SIZE: u32 = 12;

/// How a pass's dispatch size is chosen: an explicit 3-D group count, or
/// derived from the shared images' resolution and the work-group size.
#[derive(Clone, Copy, Debug, PartialEq, Eq, Structural)]
pub enum DispatchConfig {
    Count(u32, u32, u32),
    FullScreen,
}

/// A computed 3-D dispatch size.
#[derive(Clone, Copy, Debug, PartialEq, Eq, Structural)]
pub struct Dispatch {
    pub x: u32,
    pub y: u32,
    pub z: u32,
}

/// Per-frame clear policy of a shared image: leave its previous content,
/// or clear it to a solid color (8-bit channels) before any pass writes it.
#[derive(Clone, Copy, Debug, PartialEq, Eq, Structural)]
pub enum ClearConfig {
    NoClear,
    Color(u8, u8, u8),
}

/// Configuration of one shared image.
#[derive(Clone, Copy, Debug, PartialEq, Eq, Structural)]
pub struct ImageConfig {
    pub clear: ClearConfig,
}

/// One pass as the user configures it: the shader to run, the dispatch
/// policy, and the shared-image identities it declares as inputs and
/// outputs.
#[derive(Debug)]
pub struct Pass {
    pub shader: String,
    pub dispatches: DispatchConfig,
    pub input_resources: Vec<u32>,
    pub output_resources: Vec<u32>,
}

/// The whole user configuration: an ordered pass list and the shared image
/// set they read and write.
#[derive(Debug)]
pub struct DrawConfig {
    pub passes: Vec<Pass>,
    pub images: Vec<ImageConfig>,
}

/// One shared image as built: its stable identity (its index in the image
/// set), its size, and its clear policy.
#[derive(Clone, Debug)]
pub struct ImageResource {
    pub identity: u32,
    pub width: u32,
    pub height: u32,
    pub clear: ClearConfig,
}

/// One scheduled pass: the handle of its registered program, its
/// precomputed dispatch size, and its declared input and output images.
#[derive(Debug)]
pub struct ShaderPass {
    pub pipeline_handle: PipelineKey,
    pub dispatches: Dispatch,
    pub in_images: Vec<u32>,
    pub out_images: Vec<u32>,
}

/// Why graph construction failed.
#[derive(Debug)]
pub enum GraphError {
    /// A pass refers to image `identity`, but only `image_count` shared
    /// images exist. `pass` is the index of the offending pass.
    OutOfBounds { pass: usize, identity: u32, image_count: u32 },
    /// A program failed to compile during the build.
    Compile(PipelineErr),
}

/// Every identity in the list names one of `image_count` images.
pub open spec fn ids_in_range(ids: Seq<u32>, image_count: int) -> bool {
    forall|i: int| 0 <= i < ids.len() ==> (#[trigger] ids[i]) < image_count
}

/// Every identity the pass declares, input or output, is in range.
pub open spec fn pass_valid(p: Pass, image_count: int) -> bool {
    &&& ids_in_range(p.input_resources@, image_count)
    &&& ids_in_range(p.output_resources@, image_count)
}

/// Every pass of the configuration refers only to existing images.
pub open spec fn config_valid(c: DrawConfig) -> bool {
    forall|i: int| 0 <= i < c.passes@.len()
        ==> pass_valid(#[trigger] c.passes@[i], c.images@.len() as int)
}

/// Ceiling of `n / d`.
pub open spec fn div_ceil_spec(n: int, d: int) -> int
    recommends
        d >= 1,
{
    if n <= 0 {
        0
    } else {
        (n - 1) / d + 1
    }
}

/// `div_ceil_spec` really is the ceiling: the computed group count covers
/// `n`, and one group less would fall short.
pub proof fn lemma_div_ceil_exact(n: int, d: int)
    requires
        d >= 1,
        n >= 0,
    ensures
        n <= div_ceil_spec(n, d) * d,
        n > 0 ==> (div_ceil_spec(n, d) - 1) * d < n,
        n == 0 ==> div_ceil_spec(n, d) == 0,
        0 <= div_ceil_spec(n, d) <= n,
{
    if n > 0 {
        let q = (n - 1) / d;
        vstd::arithmetic::div_mod::lemma_fundamental_div_mod(n - 1, d);
        let m = (n - 1) % d;
        vstd::arithmetic::div_mod::lemma_mod_bound(n - 1, d);
        assert(n - 1 == d * q + m);
        assert((q + 1) * d == d * q + d) by (nonlinear_arith);
        assert(q * d == d * q) by (nonlinear_arith);
        assert(q <= q * d) by (nonlinear_arith)
            requires
                q >= 0,
                d >= 1,
        ;
    }
}

/// The dispatch size a pass is built with: explicit counts are copied
/// through; a full-screen pass covers the image resolution with
/// `wg`-sized work groups, rounded up per axis.
pub open spec fn dispatch_spec(d: DispatchConfig, width: u32, height: u32, wg: u32) -> Dispatch {
    match d {
        DispatchConfig::Count(x, y, z) => Dispatch { x, y, z },
        DispatchConfig::FullScreen => Dispatch {
            x: div_ceil_spec(width as int, wg as int) as u32,
            y: div_ceil_spec(height as int, wg as int) as u32,
            z: 1,
        },
    }
}

/// Ceiling division on group counts.
fn div_ceil(n: u32, d: u32) -> (r: u32)
    requires
        d >= 1,
    ensures
        r as int == div_ceil_spec(n as int, d as int),
{
    if n == 0 {
        0
    } else {
        let q = (n - 1) / d;
        proof {
            lemma_div_ceil_exact(n as int, d as int);
        }
        q + 1
    }
}

/// Computes the dispatch size for one pass, eagerly, at build time.
fn compute_dispatch(d: &DispatchConfig, width: u32, height: u32, wg: u32) -> (r: Dispatch)
    requires
        wg >= 1,
    ensures
        r == dispatch_spec(*d, width, height, wg),
{
    match d {
        DispatchConfig::Count(x, y, z) => Dispatch { x: *x, y: *y, z: *z },
        DispatchConfig::FullScreen => Dispatch {
            x: div_ceil(width, wg),
            y: div_ceil(height, wg),
            z: 1,
        },
    }
}

/// First identity in the list that does not name one of `image_count`
/// images, if any.
fn find_oob_id(ids: &Vec<u32>, image_count: u32) -> (r: Option<u32>)
    ensures
        r is None <==> ids_in_range(ids@, image_count as int),
        r matches Some(id) ==> ids@.contains(id) && id >= image_count,
{
    let mut i: usize = 0;
    while i < ids.len()
        invariant
            i <= ids@.len(),
            forall|j: int| 0 <= j < i ==> (#[trigger] ids@[j]) < image_count,
        decreases ids@.len() - i,
    {
        if ids[i] >= image_count {
            return Some(ids[i]);
        }
        i = i + 1;
    }
    None
}

/// The built graph: the shared image set and the scheduled pass list, both
/// fixed until the orchestrator is rebuilt.
#[derive(Debug)]
pub struct DrawOrchestrator {
    pub image_resources: Vec<ImageResource>,
    pub passes: Vec<ShaderPass>,
    pub workgroup_size: u32,
}

impl DrawOrchestrator {
    /// Shape of a built graph: image identities are their indices, and
    /// every identity a pass declares names one of the images.
    pub open spec fn wf(&self) -> bool {
        &&& self.image_resources@.len() <= 0x7fff_ffff
        &&& forall|j: int| 0 <= j < self.image_resources@.len()
            ==> (#[trigger] self.image_resources@[j]).identity == j as u32
        &&& forall|i: int| 0 <= i < self.passes@.len() ==> {
            &&& ids_in_range(
                (#[trigger] self.passes@[i]).in_images@,
                self.image_resources@.len() as int,
            )
            &&& ids_in_range(self.passes@[i].out_images@, self.image_resources@.len() as int)
        }
    }

    /// Identity of the designated final output: by convention the last
    /// image of the shared set, the one each frame ends by copying to the
    /// presentation target.
    pub open spec fn final_output(&self) -> int {
        self.image_resources@.len() - 1
    }

    /// Builds the pass graph from a user configuration.
    ///
    /// Every identity a pass declares is validated against the number of
    /// shared images first: an out-of-bounds identity fails the build with
    /// `GraphError::OutOfBounds` before any image is created or any
    /// program registered. On a valid configuration, one image per entry
    /// of `config.images` is created at the given resolution and one
    /// program per pass is registered with the store from the caller's
    /// compile outcome for that pass; the first compile error aborts the
    /// build with `GraphError::Compile`. On success the graph holds
    /// exactly as many images as configured and exactly one scheduled pass
    /// per configured pass, with its dispatch size already computed.
    #[verifier::loop_isolation(false)]
    pub fn build(
        config: &DrawConfig,
        width: u32,
        height: u32,
        store: &mut PipelineStore,
        compiled: &Vec<Result<Vec<u32>, PipelineErr>>,
    ) -> (r: Result<DrawOrchestrator, GraphError>)
        requires
            old(store).wf(),
            compiled@.len() == config.passes@.len(),
            old(store).next_program_id() as nat + config.passes@.len() <= u64::MAX as nat,
            old(store).entry_count() + config.passes@.len() <= 0xffff_fffe,
            config.images@.len() <= 0x7fff_ffff,
        ensures
            final(store).wf(),
            forall|k: PipelineKey| #[trigger] old(store).entries().contains_key(k)
                ==> final(store).entries().contains_key(k)
                    && final(store).entries()[k] == old(store).entries()[k],
            !config_valid(*config) ==> (r matches Err(ge)
                && (ge matches GraphError::OutOfBounds { pass, identity, image_count } ==> {
                    &&& 0 <= pass < config.passes@.len()
                    &&& !pass_valid(config.passes@[pass as int], config.images@.len() as int)
                    &&& identity as int >= config.images@.len()
                    &&& image_count as int == config.images@.len()
                })
                && (ge is OutOfBounds)
                && *final(store) == *old(store)),
            config_valid(*config) ==> match r {
                Ok(orch) => {
                    &&& orch.wf()
                    &&& orch.image_resources@.len() == config.images@.len()
                    &&& orch.passes@.len() == config.passes@.len()
                    &&& orch.workgroup_size == WORKGROUP_SIZE
                    &&& forall|j: int| 0 <= j < config.images@.len() ==> {
                        let img = #[trigger] orch.image_resources@[j];
                        &&& img.identity == j as u32
                        &&& img.width == width
                        &&& img.height == height
                        &&& img.clear == config.images@[j].clear
                    }
                    &&& forall|i: int| 0 <= i < config.passes@.len() ==> {
                        let sp = #[trigger] orch.passes@[i];
                        &&& sp.in_images@ == config.passes@[i].input_resources@
                        &&& sp.out_images@ == config.passes@[i].output_resources@
                        &&& sp.dispatches == dispatch_spec(
                            config.passes@[i].dispatches,
                            width,
                            height,
                            WORKGROUP_SIZE,
                        )
                        &&& !old(store).entries().contains_key(sp.pipeline_handle)
                        &&& final(store).entries().contains_key(sp.pipeline_handle)
                        &&& (compiled@[i] matches Ok(code)
                            ==> final(store).entries()[sp.pipeline_handle].program.code@ == code@)
                        &&& final(store).entries()[sp.pipeline_handle].config.shader_path@
                            == config.passes@[i].shader@
                        &&& final(store).entries()[sp.pipeline_handle].config.image_count as int
                            == config.images@.len()
                    }
                    &&& forall|i: int| 0 <= i < compiled@.len() ==> (#[trigger] compiled@[i]) is Ok
                },
                Err(ge) => {
                    &&& ge matches GraphError::Compile(e) && exists|i: int|
                        0 <= i < compiled@.len()
                            && (#[trigger] compiled@[i] matches Err(e0) && e0 == e)
                            && (forall|j: int| 0 <= j < i ==> compiled@[j] is Ok)
                },
            },
    {
        let image_count: u32 = config.images.len() as u32;

        // Validate every referred identity before allocating anything.
        let mut pi: usize = 0;
        while pi < config.passes.len()
            invariant
                pi <= config.passes@.len(),
                forall|i: int| 0 <= i < pi
                    ==> pass_valid(#[trigger] config.passes@[i], config.images@.len() as int),
            decreases config.passes@.len() - pi,
        {
            let p = &config.passes[pi];
            if let Some(id) = find_oob_id(&p.input_resources, image_count) {
                return Err(GraphError::OutOfBounds { pass: pi, identity: id, image_count });
            }
            if let Some(id) = find_oob_id(&p.output_resources, image_count) {
                return Err(GraphError::OutOfBounds { pass: pi, identity: id, image_count });
            }
            pi = pi + 1;
        }

        // Shared images, sized to the target resolution, identities in
        // image-set order.
        let mut image_resources: Vec<ImageResource> = Vec::new();
        let mut j: usize = 0;
        while j < config.images.len()
            invariant
                j <= config.images@.len(),
                image_resources@.len() == j,
                forall|i: int| 0 <= i < j ==> {
                    let img = #[trigger] image_resources@[i];
                    &&& img.identity == i as u32
                    &&& img.width == width
                    &&& img.height == height
                    &&& img.clear == config.images@[i].clear
                },
            decreases config.images@.len() - j,
        {
            image_resources.push(ImageResource {
                identity: j as u32,
                width,
                height,
                clear: config.images[j].clear,
            });
            j = j + 1;
        }

        // One registered program and one scheduled pass per configured
        // pass; the first compile failure aborts.
        let mut passes: Vec<ShaderPass> = Vec::new();
        let mut i: usize = 0;
        while i < config.passes.len()
            invariant
                i <= config.passes@.len(),
                store.wf(),
                store.next_program_id() == old(store).next_program_id() + i,
                store.entry_count() == old(store).entry_count() + i,
                forall|k: PipelineKey| #[trigger] old(store).entries().contains_key(k)
                    ==> store.entries().contains_key(k)
                        && store.entries()[k] == old(store).entries()[k],
                forall|n: int| 0 <= n < i ==> (#[trigger] compiled@[n]) is Ok,
                passes@.len() == i,
                forall|n: int| 0 <= n < i ==> {
                    let sp = #[trigger] passes@[n];
                    &&& sp.in_images@ == config.passes@[n].input_resources@
                    &&& sp.out_images@ == config.passes@[n].output_resources@
                    &&& sp.dispatches == dispatch_spec(
                        config.passes@[n].dispatches,
                        width,
                        height,
                        WORKGROUP_SIZE,
                    )
                    &&& !old(store).entries().contains_key(sp.pipeline_handle)
                    &&& store.entries().contains_key(sp.pipeline_handle)
                    &&& (compiled@[n] matches Ok(code)
                        ==> store.entries()[sp.pipeline_handle].program.code@ == code@)
                    &&& store.entries()[sp.pipeline_handle].config.shader_path@
                        == config.passes@[n].shader@
                    &&& store.entries()[sp.pipeline_handle].config.image_count as int
                        == config.images@.len()
                },
            decreases config.passes@.len() - i,
        {
            let p = &config.passes[i];
            let code = match &compiled[i] {
                Err(e) => {
                    let msg = match e {
                        PipelineErr::ShaderCompilation(m) => m.clone(),
                    };
                    return Err(GraphError::Compile(PipelineErr::ShaderCompilation(msg)));
                },
                Ok(c) => copy_words(c),
            };
            let pipeline_config = PipelineConfig {
                shader_path: p.shader.clone(),
                image_count,
                workgroup_size: WORKGROUP_SIZE,
                push_constant_size: PUSH_CONSTANT_SIZE,
            };
            let ghost store_before = *store;
            let handle = match store.insert(pipeline_config, Ok(code)) {
                Ok(h) => h,
                Err(e) => {
                    return Err(GraphError::Compile(e));
                },
            };
            passes.push(ShaderPass {
                pipeline_handle: handle,
                dispatches: compute_dispatch(&p.dispatches, width, height, WORKGROUP_SIZE),
                in_images: copy_words(&p.input_resources),
                out_images: copy_words(&p.output_resources),
            });
            i = i + 1;
        }

        Ok(DrawOrchestrator { image_resources, passes, workgroup_size: WORKGROUP_SIZE })
    }
}

} // verus!
