//! Overlaybd images: stacks of layers, and the configs that list them.

use crate::text::{blank, decimal, decimal_text, is_blank, optional_view};
use vstd::prelude::*;
use vstd::string::*;

verus! {

broadcast use group_string_axioms;

/// A layer of an image. A layer without a local file is fetched when it is read.
#[derive(Clone, Debug, PartialEq, Eq)]
pub struct LayerConfig {
    pub file: String,
    pub digest: String,
    pub size: u64,
    /// What else the config says of the layer: a document that is carried along unread.
    pub details: String,
}

/// The config of an image: where remote layers come from, and its layers from the bottom up. Its
/// `upper` and `details` are documents that are carried along unread.
#[derive(Clone, Debug, PartialEq, Eq)]
pub struct ImageConfig {
    pub repo_blob_url: String,
    pub lowers: Vec<LayerConfig>,
    /// The writable layer.
    pub upper: String,
    pub result_file: String,
    /// What else the config says of the image.
    pub details: String,
}

/// What a [`LayerConfig`] holds.
#[verifier::ext_equal]
pub struct LayerView {
    pub file: Seq<char>,
    pub digest: Seq<char>,
    pub size: u64,
    pub details: Seq<char>,
}

/// What an [`ImageConfig`] holds.
#[verifier::ext_equal]
pub struct ImageConfigView {
    pub repo_blob_url: Seq<char>,
    pub lowers: Seq<LayerView>,
    pub upper: Seq<char>,
    pub result_file: Seq<char>,
    pub details: Seq<char>,
}

impl View for LayerConfig {
    type V = LayerView;

    open spec fn view(&self) -> LayerView {
        LayerView {
            file: self.file@,
            digest: self.digest@,
            size: self.size,
            details: self.details@,
        }
    }
}

/// The views of some layers.
pub open spec fn layer_views(layers: Seq<LayerConfig>) -> Seq<LayerView> {
    layers.map_values(|l: LayerConfig| l@)
}

impl View for ImageConfig {
    type V = ImageConfigView;

    open spec fn view(&self) -> ImageConfigView {
        ImageConfigView {
            repo_blob_url: self.repo_blob_url@,
            lowers: layer_views(self.lowers@),
            upper: self.upper@,
            result_file: self.result_file@,
            details: self.details@,
        }
    }
}

/// The chains of layers that a snapshot's squashing merges.
#[derive(Clone, Copy, Debug, PartialEq, Eq)]
pub enum Chain {
    Rootfs,
    Memory,
}

/// How a merged layer is written.
#[derive(Clone, Copy, Debug, PartialEq, Eq)]
pub enum CompactOutput {
    /// As it is.
    Raw,
    /// As the settings for memory snapshots say, which may be compressed.
    MemorySnapshot,
}

impl Chain {
    /// The chain's name.
    pub open spec fn name(self) -> Seq<char> {
        match self {
            Chain::Rootfs => "rootfs"@,
            Chain::Memory => "memory"@,
        }
    }

    /// How the chain's merged layer is written: rootfs layers must stay raw.
    pub open spec fn output(self) -> CompactOutput {
        match self {
            Chain::Rootfs => CompactOutput::Raw,
            Chain::Memory => CompactOutput::MemorySnapshot,
        }
    }

    /// The chain's name.
    pub fn label(self) -> (r: &'static str)
        ensures
            r@ == self.name(),
    {
        match self {
            Chain::Rootfs => "rootfs",
            Chain::Memory => "memory",
        }
    }

    /// How the chain's merged layer is written.
    pub fn compact_output(self) -> (r: CompactOutput)
        ensures
            r == self.output(),
    {
        match self {
            Chain::Rootfs => CompactOutput::Raw,
            Chain::Memory => CompactOutput::MemorySnapshot,
        }
    }
}

/// Whether a layer is there as a local file.
pub open spec fn local(layer: LayerView) -> bool {
    !blank(layer.file)
}

/// The index of the first layer that is not [`local`], or the number of layers.
pub open spec fn first_remote(layers: Seq<LayerView>) -> int
    decreases layers.len(),
{
    if layers.len() == 0 || !local(layers.first()) {
        0
    } else {
        1 + first_remote(layers.drop_first())
    }
}

/// Why a chain with a remote layer at `index` cannot be squashed.
pub open spec fn remote_layer_error(label: Seq<char>, index: nat) -> Seq<char> {
    "cannot squash "@ + label + " chain: layer "@ + decimal(index)
        + " has no local file (remote layers are unsupported)"@
}

/// Why some layers cannot be merged, if they cannot: the first that is not [`local`].
pub open spec fn remote_error(layers: Seq<LayerView>, label: Seq<char>) -> Option<Seq<char>> {
    let i = first_remote(layers);
    if i == layers.len() {
        None
    } else {
        Some(remote_layer_error(label, i as nat))
    }
}

/// Why some layers cannot be merged, if they cannot.
pub fn remote_message(lowers: &Vec<LayerConfig>, label: &str) -> (r: Option<String>)
    ensures
        r is None <==> forall|i: int| 0 <= i < lowers@.len() ==> local((#[trigger] lowers@[i])@),
        optional_view(r) == remote_error(layer_views(lowers@), label@),
{
    let ghost layers = layer_views(lowers@);
    let mut i: usize = 0;
    while i < lowers.len()
        invariant
            i <= lowers@.len(),
            layers == layer_views(lowers@),
            forall|k: int| 0 <= k < i ==> local(#[trigger] layers[k]),
        decreases lowers@.len() - i,
    {
        assert(layers[i as int] == lowers@[i as int]@);
        if is_blank(lowers[i].file.as_str()) {
            proof {
                lemma_first_remote(layers, i as int);
            }
            assert(!local(lowers@[i as int]@));
            return Some(
                "cannot squash ".to_owned().concat(label).concat(" chain: layer ").concat(
                    decimal_text(i as u64).as_str(),
                ).concat(" has no local file (remote layers are unsupported)"),
            );
        }
        i += 1;
    }
    proof {
        lemma_first_remote(layers, i as int);
        assert forall|k: int| 0 <= k < lowers@.len() implies local((#[trigger] lowers@[k])@) by {
            assert(layers[k] == lowers@[k]@);
        }
    }
    None
}

/// The layers of an image whose layers are all local; an error for the first that is not.
///
/// Remote layers are fetched lazily and cannot be merged in place.
pub fn local_lowers(config: ImageConfig, label: &str) -> (r: Result<Vec<LayerConfig>, String>)
    ensures
        r is Ok <==> forall|i: int|
            0 <= i < config.lowers@.len() ==> local((#[trigger] config.lowers@[i])@),
        match r {
            Ok(lowers) => lowers == config.lowers && remote_error(config@.lowers, label@) is None,
            Err(message) => remote_error(config@.lowers, label@) == Some(message@),
        },
{
    match remote_message(&config.lowers, label) {
        Some(message) => Err(message),
        None => Ok(config.lowers),
    }
}

/// [`first_remote`] is the index before which every layer is local, and at which none is.
pub proof fn lemma_first_remote(layers: Seq<LayerView>, i: int)
    requires
        0 <= i <= layers.len(),
        forall|k: int| 0 <= k < i ==> local(#[trigger] layers[k]),
        i < layers.len() ==> !local(layers[i]),
    ensures
        first_remote(layers) == i,
    decreases i,
{
    if i > 0 {
        assert(local(layers[0]));
        let rest = layers.drop_first();
        assert forall|k: int| 0 <= k < i - 1 implies local(#[trigger] rest[k]) by {
            assert(rest[k] == layers[k + 1]);
        }
        lemma_first_remote(rest, i - 1);
    }
}

/// Where [`first_remote`] is the number of layers, every layer is local.
pub proof fn lemma_none_remote(layers: Seq<LayerView>)
    requires
        first_remote(layers) == layers.len(),
    ensures
        forall|k: int| 0 <= k < layers.len() ==> local(#[trigger] layers[k]),
    decreases layers.len(),
{
    if layers.len() > 0 {
        let rest = layers.drop_first();
        lemma_none_remote(rest);
        assert forall|k: int| 0 <= k < layers.len() implies local(#[trigger] layers[k]) by {
            if k > 0 {
                assert(layers[k] == rest[k - 1]);
            }
        }
    }
}

/// The config of an image of one layer, in the local file `file`.
pub open spec fn single_layer(file: Seq<char>) -> ImageConfigView {
    ImageConfigView {
        repo_blob_url: Seq::empty(),
        lowers: seq![
            LayerView { file, digest: Seq::empty(), size: 0, details: Seq::empty() },
        ],
        upper: Seq::empty(),
        result_file: Seq::empty(),
        details: Seq::empty(),
    }
}

/// The config of an image of one layer, in the local file `file`.
pub fn single_layer_config(file: String) -> (r: ImageConfig)
    ensures
        r@ == single_layer(file@),
{
    let mut lowers: Vec<LayerConfig> = Vec::new();
    let ghost text = file@;
    lowers.push(
        LayerConfig { file, digest: String::new(), size: 0, details: String::new() },
    );
    let r = ImageConfig {
        repo_blob_url: String::new(),
        lowers,
        upper: String::new(),
        result_file: String::new(),
        details: String::new(),
    };
    assert(r@.lowers =~= single_layer(text).lowers);
    r
}

} // verus!
