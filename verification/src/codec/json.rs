//! A codec that writes items as JSON.

use std::marker::PhantomData;

use vstd::prelude::*;

use super::EncoderWrite;

verus! {

/// The error of the JSON codec.
#[derive(Debug)]
pub enum JsonError {
    Serde(serde_json::Error),
}

/// Encodes items as JSON.
#[derive(Debug)]
pub struct SerdeJsonEncoder<T>(PhantomData<T>);

/// Decodes items from JSON.
#[derive(Debug)]
pub struct SerdeJsonDecoder<T>(PhantomData<T>);

impl<U> SerdeJsonEncoder<U> {
    pub fn new() -> (r: Self) {
        SerdeJsonEncoder(PhantomData)
    }

    /// Finishes encoding an item whose JSON text `serialized` holds (as `serde_json::to_vec`
    /// gives it): the bytes are appended to `buf` and their number is returned; a
    /// serialization error is returned as it is, with the buffer left alone.
    pub fn encode_serialized<T: EncoderWrite>(
        &mut self,
        serialized: Result<Vec<u8>, serde_json::Error>,
        buf: &mut T,
    ) -> (r: Result<usize, JsonError>)
        ensures
            match serialized {
                Ok(bytes) => r == Ok::<usize, JsonError>(bytes@.len() as usize) && final(buf).written()
                    == old(buf).written() + bytes@,
                Err(e) => r == Err::<usize, JsonError>(JsonError::Serde(e)) && final(buf).written()
                    == old(buf).written(),
            },
    {
        match serialized {
            Ok(temp) => {
                buf.write(temp.as_slice());
                Ok(temp.len())
            },
            Err(e) => Err(JsonError::Serde(e)),
        }
    }
}

impl<U> SerdeJsonDecoder<U> {
    pub fn new() -> (r: Self) {
        SerdeJsonDecoder(PhantomData)
    }

    /// Finishes decoding from what `serde_json::from_slice` gave for the buffer: the item, or
    /// the parse error.
    pub fn decode_parsed(&mut self, parsed: Result<U, serde_json::Error>) -> (r: Result<Option<U>, JsonError>)
        ensures
            match parsed {
                Ok(v) => r == Ok::<Option<U>, JsonError>(Some(v)),
                Err(e) => r == Err::<Option<U>, JsonError>(JsonError::Serde(e)),
            },
    {
        match parsed {
            Ok(res) => Ok(Some(res)),
            Err(e) => Err(JsonError::Serde(e)),
        }
    }
}

/// A codec that encodes `T` and decodes `U` as JSON.
#[derive(Debug)]
pub struct JsonCodec<T, U>(PhantomData<(T, U)>);

impl<T, U> JsonCodec<T, U> {
    pub fn new() -> (r: Self) {
        Self::default()
    }

    pub fn encoder(&self) -> (r: SerdeJsonEncoder<T>) {
        SerdeJsonEncoder(PhantomData)
    }

    pub fn decoder(&self) -> (r: SerdeJsonDecoder<U>) {
        SerdeJsonDecoder(PhantomData)
    }
}

impl<T, U> Default for JsonCodec<T, U> {
    fn default() -> (r: Self) {
        Self(PhantomData)
    }
}

impl<T, U> Clone for JsonCodec<T, U> {
    fn clone(&self) -> (r: Self) {
        Self(PhantomData)
    }
}

} // verus!
