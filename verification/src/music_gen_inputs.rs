use vstd::prelude::*;

verus! {

/// The named-tensor request for one decode step, modelled structurally: the
/// per-layer cache entries are held in vectors indexed by layer id and role
/// (decoder/encoder crossed with key/value) instead of a map keyed by
/// formatted strings. A `None` slot is a key that is absent from the request
/// and must not be sent to the inference engine.
///
/// `T` is whatever tensor handle the surrounding runtime uses; this type only
/// tracks which named slots hold one.
pub struct MusicGenInputs<T> {
    pub encoder_attention_mask: Option<T>,
    pub input_ids: Option<T>,
    pub encoder_hidden_states: Option<T>,
    pub past_decoder_keys: Vec<Option<T>>,
    pub past_decoder_values: Vec<Option<T>>,
    pub past_encoder_keys: Vec<Option<T>>,
    pub past_encoder_values: Vec<Option<T>>,
    pub use_cache_branch: bool,
}

/// Stores `value` at slot `i`, first growing the vector with absent entries
/// so that slot `i` exists. Every other slot keeps its previous value.
fn set_slot<T>(v: &mut Vec<Option<T>>, i: usize, value: T)
    requires
        i < usize::MAX,
    ensures
        final(v)@.len() == (if old(v)@.len() <= i {
            i + 1
        } else {
            old(v)@.len() as int
        }),
        final(v)@[i as int] == Some(value),
        forall|j: int|
            0 <= j < final(v)@.len() && j != i ==> final(v)@[j] == (if j < old(v)@.len() {
                old(v)@[j]
            } else {
                None::<T>
            }),
{
    while v.len() <= i
        invariant
            i < usize::MAX,
            old(v)@.len() <= v@.len(),
            v@.len() <= i + 1 || v@.len() == old(v)@.len(),
            forall|j: int| 0 <= j < old(v)@.len() ==> v@[j] == old(v)@[j],
            forall|j: int| old(v)@.len() <= j < v@.len() ==> v@[j] == None::<T>,
        decreases i + 1 - v@.len(),
    {
        v.push(None);
    }
    v.set(i, Some(value));
}

/// Moves the present entries of layers `0..num_layers` out of `src` into the
/// matching request slots, in layer order: what the engine handed back this
/// step becomes the past-key-value input of the next step, each entry taken
/// exactly once.
fn move_slots<T>(dst: &mut Vec<Option<T>>, src: &mut crate::music_gen_outputs::PresentSlots<T>, num_layers: usize)
    requires
        old(dst)@.len() <= num_layers,
        forall|l: int| 0 <= l < num_layers ==> old(src).available(l),
    ensures
        final(dst)@.len() == num_layers,
        forall|l: int| 0 <= l < num_layers ==> final(dst)@[l] == old(src).slots@[l],
        final(src).slots@.len() == old(src).slots@.len(),
        forall|l: int| 0 <= l < num_layers ==> final(src).slots@[l] is None,
        forall|l: int|
            num_layers <= l < old(src).slots@.len() ==> final(src).slots@[l] == old(src).slots@[l],
{
    let mut l: usize = 0;
    while l < num_layers
        invariant
            l <= num_layers,
            dst@.len() == (if old(dst)@.len() >= l { old(dst)@.len() as int } else { l as int }),
            old(dst)@.len() <= num_layers,
            forall|k: int| 0 <= k < l ==> dst@[k] == old(src).slots@[k],
            src.slots@.len() == old(src).slots@.len(),
            forall|k: int| 0 <= k < l ==> src.slots@[k] is None,
            forall|k: int| l <= k < old(src).slots@.len() ==> src.slots@[k] == old(src).slots@[k],
            forall|k: int| 0 <= k < num_layers ==> old(src).available(k),
        decreases num_layers - l,
    {
        proof {
            assert(old(src).available(l as int));
        }
        let v = src.take(l);
        set_slot(dst, l, v);
        l += 1;
    }
}

impl<T> MusicGenInputs<T> {
    /// A request with every named slot absent and the cache branch off.
    pub fn new() -> (r: Self)
        ensures
            r.encoder_attention_mask is None,
            r.input_ids is None,
            r.encoder_hidden_states is None,
            r.past_decoder_keys@ === Seq::<Option<T>>::empty(),
            r.past_decoder_values@ === Seq::<Option<T>>::empty(),
            r.past_encoder_keys@ === Seq::<Option<T>>::empty(),
            r.past_encoder_values@ === Seq::<Option<T>>::empty(),
            !r.use_cache_branch,
    {
        MusicGenInputs {
            encoder_attention_mask: None,
            input_ids: None,
            encoder_hidden_states: None,
            past_decoder_keys: Vec::new(),
            past_decoder_values: Vec::new(),
            past_encoder_keys: Vec::new(),
            past_encoder_values: Vec::new(),
            use_cache_branch: false,
        }
    }

    /// All fields other than the per-layer cache slots and the named one are
    /// unchanged between `a` and `b`.
    pub open spec fn same_but_caches(a: Self, b: Self) -> bool {
        &&& b.encoder_attention_mask == a.encoder_attention_mask
        &&& b.input_ids == a.input_ids
        &&& b.encoder_hidden_states == a.encoder_hidden_states
        &&& b.use_cache_branch == a.use_cache_branch
    }

    /// Sets the `encoder_attention_mask` entry of the request.
    pub fn encoder_attention_mask(&mut self, v: T)
        ensures
            final(self).encoder_attention_mask == Some(v),
            *final(self) == (MusicGenInputs { encoder_attention_mask: Some(v), ..*old(self) }),
    {
        self.encoder_attention_mask = Some(v);
    }

    /// Sets the `input_ids` entry of the request.
    pub fn input_ids(&mut self, v: T)
        ensures
            final(self).input_ids == Some(v),
            *final(self) == (MusicGenInputs { input_ids: Some(v), ..*old(self) }),
    {
        self.input_ids = Some(v);
    }

    /// Sets the `encoder_hidden_states` entry of the request.
    pub fn encoder_hidden_states(&mut self, v: T)
        ensures
            final(self).encoder_hidden_states == Some(v),
            *final(self) == (MusicGenInputs { encoder_hidden_states: Some(v), ..*old(self) }),
    {
        self.encoder_hidden_states = Some(v);
    }

    /// Removes the `encoder_hidden_states` entry: once the model's own cache
    /// captures the cross-attention context, the key must no longer be sent.
    pub fn remove_encoder_hidden_states(&mut self)
        ensures
            final(self).encoder_hidden_states is None,
            *final(self) == (MusicGenInputs { encoder_hidden_states: None, ..*old(self) }),
    {
        self.encoder_hidden_states = None;
    }

    /// Sets the decoder-key cache entry for layer `i`.
    pub fn past_key_value_decoder_key(&mut self, i: usize, v: T)
        requires
            i < usize::MAX,
        ensures
            Self::same_but_caches(*old(self), *final(self)),
            final(self).past_decoder_values == old(self).past_decoder_values,
            final(self).past_encoder_keys == old(self).past_encoder_keys,
            final(self).past_encoder_values == old(self).past_encoder_values,
            final(self).past_decoder_keys@.len() == (if old(self).past_decoder_keys@.len() <= i {
                i + 1
            } else {
                old(self).past_decoder_keys@.len() as int
            }),
            final(self).past_decoder_keys@[i as int] == Some(v),
            forall|j: int|
                0 <= j < final(self).past_decoder_keys@.len() && j != i
                    ==> final(self).past_decoder_keys@[j] == (if j < old(
                    self,
                ).past_decoder_keys@.len() {
                    old(self).past_decoder_keys@[j]
                } else {
                    None::<T>
                }),
    {
        set_slot(&mut self.past_decoder_keys, i, v);
    }

    /// Sets the decoder-value cache entry for layer `i`.
    pub fn past_key_value_decoder_value(&mut self, i: usize, v: T)
        requires
            i < usize::MAX,
        ensures
            Self::same_but_caches(*old(self), *final(self)),
            final(self).past_decoder_keys == old(self).past_decoder_keys,
            final(self).past_encoder_keys == old(self).past_encoder_keys,
            final(self).past_encoder_values == old(self).past_encoder_values,
            final(self).past_decoder_values@.len() == (if old(self).past_decoder_values@.len()
                <= i {
                i + 1
            } else {
                old(self).past_decoder_values@.len() as int
            }),
            final(self).past_decoder_values@[i as int] == Some(v),
            forall|j: int|
                0 <= j < final(self).past_decoder_values@.len() && j != i
                    ==> final(self).past_decoder_values@[j] == (if j < old(
                    self,
                ).past_decoder_values@.len() {
                    old(self).past_decoder_values@[j]
                } else {
                    None::<T>
                }),
    {
        set_slot(&mut self.past_decoder_values, i, v);
    }

    /// Sets the encoder-key cache entry for layer `i`.
    pub fn past_key_value_encoder_key(&mut self, i: usize, v: T)
        requires
            i < usize::MAX,
        ensures
            Self::same_but_caches(*old(self), *final(self)),
            final(self).past_decoder_keys == old(self).past_decoder_keys,
            final(self).past_decoder_values == old(self).past_decoder_values,
            final(self).past_encoder_values == old(self).past_encoder_values,
            final(self).past_encoder_keys@.len() == (if old(self).past_encoder_keys@.len() <= i {
                i + 1
            } else {
                old(self).past_encoder_keys@.len() as int
            }),
            final(self).past_encoder_keys@[i as int] == Some(v),
            forall|j: int|
                0 <= j < final(self).past_encoder_keys@.len() && j != i
                    ==> final(self).past_encoder_keys@[j] == (if j < old(
                    self,
                ).past_encoder_keys@.len() {
                    old(self).past_encoder_keys@[j]
                } else {
                    None::<T>
                }),
    {
        set_slot(&mut self.past_encoder_keys, i, v);
    }

    /// Sets the encoder-value cache entry for layer `i`.
    pub fn past_key_value_encoder_value(&mut self, i: usize, v: T)
        requires
            i < usize::MAX,
        ensures
            Self::same_but_caches(*old(self), *final(self)),
            final(self).past_decoder_keys == old(self).past_decoder_keys,
            final(self).past_decoder_values == old(self).past_decoder_values,
            final(self).past_encoder_keys == old(self).past_encoder_keys,
            final(self).past_encoder_values@.len() == (if old(self).past_encoder_values@.len()
                <= i {
                i + 1
            } else {
                old(self).past_encoder_values@.len() as int
            }),
            final(self).past_encoder_values@[i as int] == Some(v),
            forall|j: int|
                0 <= j < final(self).past_encoder_values@.len() && j != i
                    ==> final(self).past_encoder_values@[j] == (if j < old(
                    self,
                ).past_encoder_values@.len() {
                    old(self).past_encoder_values@[j]
                } else {
                    None::<T>
                }),
    {
        set_slot(&mut self.past_encoder_values, i, v);
    }

    /// The request of a run's first step: the prompt context travels whole
    /// (encoder hidden states and attention mask beside the token frame), no
    /// cache entry exists yet, and the cache branch is off.
    pub fn first_step(input_ids: T, encoder_hidden_states: T, encoder_attention_mask: T) -> (r:
        Self)
        ensures
            r.input_ids == Some(input_ids),
            r.encoder_hidden_states == Some(encoder_hidden_states),
            r.encoder_attention_mask == Some(encoder_attention_mask),
            !r.use_cache_branch,
            r.past_decoder_keys@ === Seq::<Option<T>>::empty(),
            r.past_decoder_values@ === Seq::<Option<T>>::empty(),
            r.past_encoder_keys@ === Seq::<Option<T>>::empty(),
            r.past_encoder_values@ === Seq::<Option<T>>::empty(),
    {
        let mut r = Self::new();
        r.input_ids(input_ids);
        r.encoder_hidden_states(encoder_hidden_states);
        r.encoder_attention_mask(encoder_attention_mask);
        r
    }

    /// Rebuilds the request for a cached step: only the single new delayed
    /// frame travels as `input_ids`, the cache branch is on, and the encoder
    /// hidden states are omitted — the model's own cache already captures the
    /// cross-attention context, so resending them is explicitly excluded.
    /// The cache slots are left for `capture_present` to fill.
    pub fn begin_cached_step(&mut self, input_ids: T)
        ensures
            final(self).input_ids == Some(input_ids),
            final(self).encoder_hidden_states is None,
            final(self).use_cache_branch,
            final(self).encoder_attention_mask == old(self).encoder_attention_mask,
            final(self).past_decoder_keys == old(self).past_decoder_keys,
            final(self).past_decoder_values == old(self).past_decoder_values,
            final(self).past_encoder_keys == old(self).past_encoder_keys,
            final(self).past_encoder_values == old(self).past_encoder_values,
    {
        self.input_ids(input_ids);
        self.remove_encoder_hidden_states();
        self.use_cache_branch(true);
    }

    /// Takes every present-key/value entry of layers `0..num_layers` out of
    /// this step's response and stores each as the matching past-key-value
    /// entry of the next step's request: the decoder and encoder caches of
    /// all four roles, each consumed exactly once, each landing at its own
    /// layer id. The response's `logits` entry and everything outside the
    /// cache slots are untouched.
    pub fn capture_present(
        &mut self,
        outputs: &mut crate::music_gen_outputs::MusicGenOutputs<T>,
        num_layers: usize,
    )
        requires
            old(self).past_decoder_keys@.len() <= num_layers,
            old(self).past_decoder_values@.len() <= num_layers,
            old(self).past_encoder_keys@.len() <= num_layers,
            old(self).past_encoder_values@.len() <= num_layers,
            forall|l: int| 0 <= l < num_layers ==> old(outputs).present_decoder_keys.available(l),
            forall|l: int| 0 <= l < num_layers ==> old(outputs).present_decoder_values.available(l),
            forall|l: int| 0 <= l < num_layers ==> old(outputs).present_encoder_keys.available(l),
            forall|l: int| 0 <= l < num_layers ==> old(outputs).present_encoder_values.available(l),
        ensures
            Self::same_but_caches(*old(self), *final(self)),
            final(self).past_decoder_keys@.len() == num_layers,
            final(self).past_decoder_values@.len() == num_layers,
            final(self).past_encoder_keys@.len() == num_layers,
            final(self).past_encoder_values@.len() == num_layers,
            forall|l: int|
                0 <= l < num_layers ==> final(self).past_decoder_keys@[l] == old(
                    outputs,
                ).present_decoder_keys.slots@[l],
            forall|l: int|
                0 <= l < num_layers ==> final(self).past_decoder_values@[l] == old(
                    outputs,
                ).present_decoder_values.slots@[l],
            forall|l: int|
                0 <= l < num_layers ==> final(self).past_encoder_keys@[l] == old(
                    outputs,
                ).present_encoder_keys.slots@[l],
            forall|l: int|
                0 <= l < num_layers ==> final(self).past_encoder_values@[l] == old(
                    outputs,
                ).present_encoder_values.slots@[l],
            forall|l: int|
                0 <= l < num_layers ==> final(outputs).present_decoder_keys.slots@[l] is None
                    && final(outputs).present_decoder_values.slots@[l] is None
                    && final(outputs).present_encoder_keys.slots@[l] is None
                    && final(outputs).present_encoder_values.slots@[l] is None,
            final(outputs).logits == old(outputs).logits,
    {
        move_slots(&mut self.past_decoder_keys, &mut outputs.present_decoder_keys, num_layers);
        move_slots(&mut self.past_decoder_values, &mut outputs.present_decoder_values, num_layers);
        move_slots(&mut self.past_encoder_keys, &mut outputs.present_encoder_keys, num_layers);
        move_slots(&mut self.past_encoder_values, &mut outputs.present_encoder_values, num_layers);
    }

    /// Records which computation path the model must take this step: the full
    /// pass on the first step, the cached-incremental pass afterwards.
    pub fn use_cache_branch(&mut self, value: bool)
        ensures
            final(self).use_cache_branch == value,
            *final(self) == (MusicGenInputs { use_cache_branch: value, ..*old(self) }),
    {
        self.use_cache_branch = value;
    }
}

} // verus!
