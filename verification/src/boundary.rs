//! The boundary entry-point logic, on plain values.
//!
//! Each domain type exposes a `new`/operation/`free` surface across the
//! component boundary. The raw side of that surface (C linkage, raw
//! pointers, the process-wide lock around each registry) lives in the
//! embedding; it hands these functions the registry, the handle, and the
//! arguments as owned buffers or integers, and gets plain values back.
//! A lookup miss yields the type's neutral default (0, or the encoded
//! empty text) rather than an error, matching the documented boundary
//! policy; a buffer that does not decode is refused loudly.

use crate::common::line_spec;
use crate::common::upper_of;
use crate::common::Logger;
use crate::marshal::all_decode;
use crate::marshal::decode_spec;
use crate::marshal::decode_string;
use crate::marshal::decode_string_array;
use crate::marshal::decoded_texts;
use crate::marshal::encode_spec;
use crate::marshal::encode_string;
use crate::marshal::MarshalError;
use crate::mathlib::fact;
use crate::mathlib::Calculator;
use crate::registry::Registry;
use crate::stringlib::join_spec;
use crate::stringlib::word_count_spec;
use crate::stringlib::StringProcessor;
use vstd::prelude::*;

verus! {

/// The encoded empty text: a lone terminator, the neutral default for
/// textual results.
fn empty_buffer() -> (r: Vec<u8>)
    ensures
        r@ == seq![0u8],
{
    let mut v: Vec<u8> = Vec::new();
    v.push(0);
    proof {
        assert(v@ =~= seq![0u8]);
    }
    v
}

/// Registers a new logger with the given prefix and returns its handle.
pub fn common_logger_new(reg: &mut Registry<Logger>, prefix: &str) -> (h: usize)
    requires
        old(reg).inv(),
        old(reg).next_handle() < usize::MAX,
    ensures
        final (reg).inv(),
        h != 0,
        h == old(reg).next_handle(),
        !old(reg).map().contains_key(h),
        final (reg).map().contains_key(h),
        final (reg).map()[h].prefix_spec() == prefix@,
        final (reg).map() == old(reg).map().insert(h, final (reg).map()[h]),
        final (reg).next_handle() == h + 1,
{
    reg.create(Logger::new(prefix))
}

/// Formats the line a live logger prints for a marshaled message; the
/// embedding emits it. A dead handle yields no line; a message buffer that
/// does not decode is refused.
pub fn common_logger_log(reg: &Registry<Logger>, handle: usize, message: &Vec<u8>) -> (r: Result<
    Option<String>,
    MarshalError,
>)
    requires
        reg.inv(),
    ensures
        match r {
            Ok(line) => decode_spec(message@) is Some && (line is Some <==> reg.map().contains_key(
                handle,
            )) && (line is Some ==> exists|ts: Seq<char>|
                line->Some_0@ == line_spec(
                    ts,
                    reg.map()[handle].prefix_spec(),
                    decode_spec(message@)->Some_0,
                )),
            Err(e) => e == MarshalError::InvalidEncoding && decode_spec(message@) is None,
        },
{
    let text = match decode_string(message) {
        Ok(t) => t,
        Err(e) => {
            return Err(e);
        },
    };
    match reg.get(handle) {
        Some(logger) => {
            let line = logger.log(text.as_str());
            proof {
                let ts = choose|ts: Seq<char>|
                    line@ == line_spec(ts, logger.prefix_spec(), text@);
                assert(line@ == line_spec(
                    ts,
                    reg.map()[handle].prefix_spec(),
                    decode_spec(message@)->Some_0,
                ));
            }
            Ok(Some(line))
        },
        None => Ok(None),
    }
}

/// Destroys a logger handle; unknown or already destroyed handles are a
/// silent no-op.
pub fn common_logger_free(reg: &mut Registry<Logger>, handle: usize)
    requires
        old(reg).inv(),
    ensures
        final (reg).inv(),
        final (reg).map() == old(reg).map().remove(handle),
        final (reg).next_handle() == old(reg).next_handle(),
{
    reg.destroy(handle)
}

/// Uppercases a marshaled text, buffer to buffer.
pub fn common_to_upper(input: &Vec<u8>) -> (r: Result<Vec<u8>, MarshalError>)
    ensures
        match r {
            Ok(out) => decode_spec(input@) is Some && encode_spec(
                upper_of(decode_spec(input@)->Some_0),
            ) == Some(out@),
            Err(e) => (e == MarshalError::InvalidEncoding && decode_spec(input@) is None) || (e
                == MarshalError::EmbeddedNul && decode_spec(input@) is Some && encode_spec(
                upper_of(decode_spec(input@)->Some_0),
            ) is None),
        },
{
    let text = match decode_string(input) {
        Ok(t) => t,
        Err(e) => {
            return Err(e);
        },
    };
    let upper = crate::common::to_upper(text.as_str());
    encode_string(upper.as_str())
}

/// Registers a new calculator and returns its handle.
pub fn mathlib_calculator_new(reg: &mut Registry<Calculator>) -> (h: usize)
    requires
        old(reg).inv(),
        old(reg).next_handle() < usize::MAX,
    ensures
        final (reg).inv(),
        h != 0,
        h == old(reg).next_handle(),
        !old(reg).map().contains_key(h),
        final (reg).map().contains_key(h),
        final (reg).map()[h].logger_prefix() == "MathLib"@,
        final (reg).map() == old(reg).map().insert(h, final (reg).map()[h]),
        final (reg).next_handle() == h + 1,
{
    reg.create(Calculator::new())
}

/// Adds through a calculator handle; a dead handle yields the neutral 0.
pub fn mathlib_calculator_add(reg: &Registry<Calculator>, handle: usize, a: i32, b: i32) -> (r:
    i32)
    requires
        reg.inv(),
        i32::MIN <= a + b <= i32::MAX,
    ensures
        reg.map().contains_key(handle) ==> r == a + b,
        !reg.map().contains_key(handle) ==> r == 0,
{
    let res = reg.with(
        handle,
        |calc: &Calculator| -> (o: i32)
            requires
                i32::MIN <= a + b <= i32::MAX,
            ensures
                o == a + b
            { calc.add(a, b) },
    );
    match res {
        Some(v) => v,
        None => 0,
    }
}

/// Multiplies through a calculator handle; a dead handle yields 0.
pub fn mathlib_calculator_multiply(reg: &Registry<Calculator>, handle: usize, a: i32, b: i32) -> (r:
    i32)
    requires
        reg.inv(),
        i32::MIN <= a * b <= i32::MAX,
    ensures
        reg.map().contains_key(handle) ==> r == a * b,
        !reg.map().contains_key(handle) ==> r == 0,
{
    let res = reg.with(
        handle,
        |calc: &Calculator| -> (o: i32)
            requires
                i32::MIN <= a * b <= i32::MAX,
            ensures
                o == a * b
            { calc.multiply(a, b) },
    );
    match res {
        Some(v) => v,
        None => 0,
    }
}

/// Takes the factorial through a calculator handle; a dead handle yields 0.
pub fn mathlib_calculator_factorial(reg: &Registry<Calculator>, handle: usize, n: i32) -> (r: i64)
    requires
        reg.inv(),
        n <= 20,
    ensures
        reg.map().contains_key(handle) ==> r == fact(n as int),
        !reg.map().contains_key(handle) ==> r == 0,
{
    let res = reg.with(
        handle,
        |calc: &Calculator| -> (o: i64)
            requires
                n <= 20,
            ensures
                o == fact(n as int)
            { calc.factorial(n) },
    );
    match res {
        Some(v) => v,
        None => 0,
    }
}

/// Takes the largest of three through a calculator handle; a dead handle
/// yields 0.
pub fn mathlib_calculator_max_of_three(
    reg: &Registry<Calculator>,
    handle: usize,
    a: i32,
    b: i32,
    c: i32,
) -> (r: i32)
    requires
        reg.inv(),
    ensures
        reg.map().contains_key(handle) ==> r >= a && r >= b && r >= c && (r == a || r == b || r
            == c),
        !reg.map().contains_key(handle) ==> r == 0,
{
    let res = reg.with(
        handle,
        |calc: &Calculator| -> (o: i32)
            ensures
                o >= a && o >= b && o >= c && (o == a || o == b || o == c)
            { calc.max_of_three(a, b, c) },
    );
    match res {
        Some(v) => v,
        None => 0,
    }
}

/// Destroys a calculator handle; unknown or already destroyed handles are
/// a silent no-op.
pub fn mathlib_calculator_free(reg: &mut Registry<Calculator>, handle: usize)
    requires
        old(reg).inv(),
    ensures
        final (reg).inv(),
        final (reg).map() == old(reg).map().remove(handle),
        final (reg).next_handle() == old(reg).next_handle(),
{
    reg.destroy(handle)
}

/// Registers a new string processor and returns its handle.
pub fn stringlib_processor_new(reg: &mut Registry<StringProcessor>) -> (h: usize)
    requires
        old(reg).inv(),
        old(reg).next_handle() < usize::MAX,
    ensures
        final (reg).inv(),
        h != 0,
        h == old(reg).next_handle(),
        !old(reg).map().contains_key(h),
        final (reg).map().contains_key(h),
        final (reg).map()[h].logger_prefix() == "StringLib"@,
        final (reg).map() == old(reg).map().insert(h, final (reg).map()[h]),
        final (reg).next_handle() == h + 1,
{
    reg.create(StringProcessor::new())
}

/// Reverses a marshaled text through a processor handle. A dead handle
/// yields the encoded empty text; a buffer that does not decode, or a
/// result that cannot be encoded, is refused.
pub fn stringlib_processor_reverse(
    reg: &Registry<StringProcessor>,
    handle: usize,
    input: &Vec<u8>,
) -> (r: Result<Vec<u8>, MarshalError>)
    requires
        reg.inv(),
    ensures
        match r {
            Ok(out) => decode_spec(input@) is Some && (if reg.map().contains_key(handle) {
                encode_spec((decode_spec(input@)->Some_0).reverse()) == Some(out@)
            } else {
                out@ == seq![0u8]
            }),
            Err(e) => (e == MarshalError::InvalidEncoding && decode_spec(input@) is None) || (e
                == MarshalError::EmbeddedNul && decode_spec(input@) is Some
                && reg.map().contains_key(handle) && encode_spec(
                (decode_spec(input@)->Some_0).reverse(),
            ) is None),
        },
{
    let text = match decode_string(input) {
        Ok(t) => t,
        Err(e) => {
            return Err(e);
        },
    };
    let res = reg.with(
        handle,
        |proc: &StringProcessor| -> (o: String)
            ensures
                o@ == text@.reverse()
            { proc.reverse(text.as_str()) },
    );
    match res {
        Some(reversed) => encode_string(reversed.as_str()),
        None => Ok(empty_buffer()),
    }
}

/// Joins marshaled texts with a marshaled separator through a processor
/// handle. A dead handle yields the encoded empty text; any buffer that
/// does not decode, or a result that cannot be encoded, is refused.
pub fn stringlib_processor_concat(
    reg: &Registry<StringProcessor>,
    handle: usize,
    strings: &Vec<Vec<u8>>,
    separator: &Vec<u8>,
) -> (r: Result<Vec<u8>, MarshalError>)
    requires
        reg.inv(),
    ensures
        match r {
            Ok(out) => decode_spec(separator@) is Some && all_decode(
                strings@.map_values(|b: Vec<u8>| b@),
            ) && (if reg.map().contains_key(handle) {
                encode_spec(
                    join_spec(
                        decoded_texts(strings@.map_values(|b: Vec<u8>| b@)),
                        decode_spec(separator@)->Some_0,
                    ),
                ) == Some(out@)
            } else {
                out@ == seq![0u8]
            }),
            Err(e) => (e == MarshalError::InvalidEncoding && (decode_spec(separator@) is None
                || !all_decode(strings@.map_values(|b: Vec<u8>| b@)))) || (e
                == MarshalError::EmbeddedNul && decode_spec(separator@) is Some && all_decode(
                strings@.map_values(|b: Vec<u8>| b@),
            ) && reg.map().contains_key(handle) && encode_spec(
                join_spec(
                    decoded_texts(strings@.map_values(|b: Vec<u8>| b@)),
                    decode_spec(separator@)->Some_0,
                ),
            ) is None),
        },
{
    let sep = match decode_string(separator) {
        Ok(t) => t,
        Err(e) => {
            return Err(e);
        },
    };
    let texts = match decode_string_array(strings) {
        Ok(v) => v,
        Err(e) => {
            proof {
                let views = strings@.map_values(|b: Vec<u8>| b@);
                let i = choose|i: int|
                    0 <= i < strings@.len() && decode_spec(strings@[i]@) is None;
                assert(decode_spec(views[i]) is None);
            }
            return Err(e);
        },
    };
    proof {
        let views = strings@.map_values(|b: Vec<u8>| b@);
        assert forall|i: int| 0 <= i < views.len() implies decode_spec(views[i]) is Some by {
            assert(decode_spec(strings@[i]@) == Some(texts@[i]@));
        }
        assert(decoded_texts(views) =~= texts@.map_values(|s: String| s@));
    }
    let res = reg.with(
        handle,
        |proc: &StringProcessor| -> (o: String)
            ensures
                o@ == join_spec(texts@.map_values(|s: String| s@), sep@)
            { proc.concat(&texts, sep.as_str()) },
    );
    match res {
        Some(joined) => encode_string(joined.as_str()),
        None => Ok(empty_buffer()),
    }
}

/// Uppercases a marshaled text through a processor handle. A dead handle
/// yields the encoded empty text; a buffer that does not decode, or a
/// result that cannot be encoded, is refused.
pub fn stringlib_processor_to_upper(
    reg: &Registry<StringProcessor>,
    handle: usize,
    input: &Vec<u8>,
) -> (r: Result<Vec<u8>, MarshalError>)
    requires
        reg.inv(),
    ensures
        match r {
            Ok(out) => decode_spec(input@) is Some && (if reg.map().contains_key(handle) {
                encode_spec(upper_of(decode_spec(input@)->Some_0)) == Some(out@)
            } else {
                out@ == seq![0u8]
            }),
            Err(e) => (e == MarshalError::InvalidEncoding && decode_spec(input@) is None) || (e
                == MarshalError::EmbeddedNul && decode_spec(input@) is Some
                && reg.map().contains_key(handle) && encode_spec(
                upper_of(decode_spec(input@)->Some_0),
            ) is None),
        },
{
    let text = match decode_string(input) {
        Ok(t) => t,
        Err(e) => {
            return Err(e);
        },
    };
    let res = reg.with(
        handle,
        |proc: &StringProcessor| -> (o: String)
            ensures
                o@ == upper_of(text@)
            { proc.to_upper(text.as_str()) },
    );
    match res {
        Some(upper) => encode_string(upper.as_str()),
        None => Ok(empty_buffer()),
    }
}

/// Counts the words of a marshaled text through a processor handle. A dead
/// handle yields 0; a buffer that does not decode is refused.
pub fn stringlib_processor_word_count(
    reg: &Registry<StringProcessor>,
    handle: usize,
    input: &Vec<u8>,
) -> (r: Result<usize, MarshalError>)
    requires
        reg.inv(),
    ensures
        match r {
            Ok(count) => decode_spec(input@) is Some && (if reg.map().contains_key(handle) {
                count == word_count_spec(decode_spec(input@)->Some_0)
            } else {
                count == 0
            }),
            Err(e) => e == MarshalError::InvalidEncoding && decode_spec(input@) is None,
        },
{
    let text = match decode_string(input) {
        Ok(t) => t,
        Err(e) => {
            return Err(e);
        },
    };
    let res = reg.with(
        handle,
        |proc: &StringProcessor| -> (o: usize)
            ensures
                o == word_count_spec(text@)
            { proc.word_count(text.as_str()) },
    );
    match res {
        Some(count) => Ok(count),
        None => Ok(0),
    }
}

/// Destroys a processor handle; unknown or already destroyed handles are a
/// silent no-op.
pub fn stringlib_processor_free(reg: &mut Registry<StringProcessor>, handle: usize)
    requires
        old(reg).inv(),
    ensures
        final (reg).inv(),
        final (reg).map() == old(reg).map().remove(handle),
        final (reg).next_handle() == old(reg).next_handle(),
{
    reg.destroy(handle)
}

} // verus!
