use vstd::prelude::*;

verus! {

/// The per-layer present-key/value tensors of one step's response, for one of
/// the four roles (decoder/encoder crossed with key/value), indexed by layer.
/// Taking an entry removes it: each must be consumed exactly once per step.
pub struct PresentSlots<T> {
    pub slots: Vec<Option<T>>,
}

/// Rejection of the `logits` entry's extracted shape.
#[derive(Clone, Copy, Debug, PartialEq, Eq, Structural)]
pub enum LogitsError {
    /// The tensor is not three-dimensional.
    NotThreeDimensional,
}

/// Accepts the extracted shape of the `logits` tensor exactly when it is the
/// three-dimensional [batch, sequence, vocabulary] view that sampling reads,
/// returning the three extents; any other rank is an error to surface, never
/// silently coerced.
pub fn logits_view_dims(dims: &Vec<i64>) -> (r: Result<(i64, i64, i64), LogitsError>)
    ensures
        dims@.len() == 3 ==> r === Ok((dims@[0], dims@[1], dims@[2])),
        dims@.len() != 3 ==> r === Err(LogitsError::NotThreeDimensional),
{
    if dims.len() == 3 {
        Ok((dims[0], dims[1], dims[2]))
    } else {
        Err(LogitsError::NotThreeDimensional)
    }
}

/// The named-tensor response of one decode step, modelled structurally:
/// one `logits` entry plus, per decoder layer, the four present-key/value
/// entries the next step's request is built from.
///
/// Every entry must be taken (removed, not copied) exactly once; the
/// `requires` clauses rule out taking a missing or already-taken entry, which
/// would signal a model/interface mismatch.
pub struct MusicGenOutputs<T> {
    pub logits: Option<T>,
    pub present_decoder_keys: PresentSlots<T>,
    pub present_decoder_values: PresentSlots<T>,
    pub present_encoder_keys: PresentSlots<T>,
    pub present_encoder_values: PresentSlots<T>,
}

impl<T> PresentSlots<T> {
    /// The entry for layer `i` is present and not yet taken.
    pub open spec fn available(&self, i: int) -> bool {
        0 <= i < self.slots@.len() && self.slots@[i] is Some
    }

    pub fn new(slots: Vec<Option<T>>) -> (r: Self)
        ensures
            r.slots@ === slots@,
    {
        PresentSlots { slots }
    }

    /// Removes and returns the entry for layer `i`.
    pub fn take(&mut self, i: usize) -> (r: T)
        requires
            old(self).available(i as int),
        ensures
            old(self).slots@[i as int] == Some(r),
            final(self).slots@ === old(self).slots@.update(i as int, None),
    {
        let mut taken: Option<T> = None;
        self.slots.set_and_swap(i, &mut taken);
        match taken {
            Some(v) => v,
            None => unreached(),
        }
    }
}

impl<T> MusicGenOutputs<T> {
    /// Packs one step's response. `logits` is the sampling tensor; the four
    /// slot vectors hold the present-key/value entries by layer id.
    pub fn new(
        logits: Option<T>,
        present_decoder_keys: Vec<Option<T>>,
        present_decoder_values: Vec<Option<T>>,
        present_encoder_keys: Vec<Option<T>>,
        present_encoder_values: Vec<Option<T>>,
    ) -> (r: Self)
        ensures
            r.logits == logits,
            r.present_decoder_keys.slots@ === present_decoder_keys@,
            r.present_decoder_values.slots@ === present_decoder_values@,
            r.present_encoder_keys.slots@ === present_encoder_keys@,
            r.present_encoder_values.slots@ === present_encoder_values@,
    {
        MusicGenOutputs {
            logits,
            present_decoder_keys: PresentSlots::new(present_decoder_keys),
            present_decoder_values: PresentSlots::new(present_decoder_values),
            present_encoder_keys: PresentSlots::new(present_encoder_keys),
            present_encoder_values: PresentSlots::new(present_encoder_values),
        }
    }

    /// Removes and returns the `logits` entry. Exactly one such entry exists
    /// per step; taking it twice is ruled out.
    pub fn take_logits(&mut self) -> (r: T)
        requires
            old(self).logits is Some,
        ensures
            old(self).logits == Some(r),
            final(self).logits is None,
            final(self).present_decoder_keys == old(self).present_decoder_keys,
            final(self).present_decoder_values == old(self).present_decoder_values,
            final(self).present_encoder_keys == old(self).present_encoder_keys,
            final(self).present_encoder_values == old(self).present_encoder_values,
    {
        let taken = self.logits.take();
        match taken {
            Some(v) => v,
            None => unreached(),
        }
    }

    /// Removes and returns the present decoder key of layer `i`.
    pub fn take_present_decoder_key(&mut self, i: usize) -> (r: T)
        requires
            old(self).present_decoder_keys.available(i as int),
        ensures
            old(self).present_decoder_keys.slots@[i as int] == Some(r),
            final(self).present_decoder_keys.slots@ === old(
                self,
            ).present_decoder_keys.slots@.update(i as int, None),
            final(self).logits == old(self).logits,
            final(self).present_decoder_values == old(self).present_decoder_values,
            final(self).present_encoder_keys == old(self).present_encoder_keys,
            final(self).present_encoder_values == old(self).present_encoder_values,
    {
        self.present_decoder_keys.take(i)
    }

    /// Removes and returns the present decoder value of layer `i`.
    pub fn take_present_decoder_value(&mut self, i: usize) -> (r: T)
        requires
            old(self).present_decoder_values.available(i as int),
        ensures
            old(self).present_decoder_values.slots@[i as int] == Some(r),
            final(self).present_decoder_values.slots@ === old(
                self,
            ).present_decoder_values.slots@.update(i as int, None),
            final(self).logits == old(self).logits,
            final(self).present_decoder_keys == old(self).present_decoder_keys,
            final(self).present_encoder_keys == old(self).present_encoder_keys,
            final(self).present_encoder_values == old(self).present_encoder_values,
    {
        self.present_decoder_values.take(i)
    }

    /// Removes and returns the present encoder key of layer `i`.
    pub fn take_present_encoder_key(&mut self, i: usize) -> (r: T)
        requires
            old(self).present_encoder_keys.available(i as int),
        ensures
            old(self).present_encoder_keys.slots@[i as int] == Some(r),
            final(self).present_encoder_keys.slots@ === old(
                self,
            ).present_encoder_keys.slots@.update(i as int, None),
            final(self).logits == old(self).logits,
            final(self).present_decoder_keys == old(self).present_decoder_keys,
            final(self).present_decoder_values == old(self).present_decoder_values,
            final(self).present_encoder_values == old(self).present_encoder_values,
    {
        self.present_encoder_keys.take(i)
    }

    /// Removes and returns the present encoder value of layer `i`.
    pub fn take_present_encoder_value(&mut self, i: usize) -> (r: T)
        requires
            old(self).present_encoder_values.available(i as int),
        ensures
            old(self).present_encoder_values.slots@[i as int] == Some(r),
            final(self).present_encoder_values.slots@ === old(
                self,
            ).present_encoder_values.slots@.update(i as int, None),
            final(self).logits == old(self).logits,
            final(self).present_decoder_keys == old(self).present_decoder_keys,
            final(self).present_decoder_values == old(self).present_decoder_values,
            final(self).present_encoder_keys == old(self).present_encoder_keys,
    {
        self.present_encoder_values.take(i)
    }
}

} // verus!
