//! The AMF0 grammar of FLV script-data tags.
//!
//! A script tag holds a typed string name followed by one AMF0 value. The
//! demuxer only reads number- and string-valued properties of a top-level
//! object or ECMA array; everything else is parsed for well-formedness and
//! skipped. A malformed record (bad marker, short data, invalid UTF-8 in a
//! string) fails as a whole.

use vstd::prelude::*;
use vstd::utf8::valid_utf8;
use crate::bytes::{be_u16, be_u32, be_u64, read_be_u16, read_be_u32, read_be_u64, copy_range};
use crate::utf8check::is_valid_utf8_range;

verus! {

/// A property value, reduced to what the demuxer reads: the raw bits of an
/// AMF0 number, the bytes of an AMF0 string, or anything else.
#[derive(Debug)]
pub enum AmfValue {
    Number(u64),
    Utf8(Vec<u8>),
    Other,
}

/// One named property of an AMF0 object or ECMA array.
#[derive(Debug)]
pub struct AmfProperty {
    pub name: Vec<u8>,
    pub value: AmfValue,
}

/// Mathematical image of [`AmfValue`].
pub enum AmfValueModel {
    Number(u64),
    Utf8(Seq<u8>),
    Other,
}

/// Mathematical image of [`AmfProperty`].
#[verifier::ext_equal]
pub struct AmfPropertyModel {
    pub name: Seq<u8>,
    pub value: AmfValueModel,
}

impl View for AmfValue {
    type V = AmfValueModel;

    open spec fn view(&self) -> AmfValueModel {
        match self {
            AmfValue::Number(n) => AmfValueModel::Number(*n),
            AmfValue::Utf8(s) => AmfValueModel::Utf8(s@),
            AmfValue::Other => AmfValueModel::Other,
        }
    }
}

impl View for AmfProperty {
    type V = AmfPropertyModel;

    open spec fn view(&self) -> AmfPropertyModel {
        AmfPropertyModel { name: self.name@, value: self.value@ }
    }
}

/// The view of a parsed property list.
pub open spec fn props_view(ps: Seq<AmfProperty>) -> Seq<AmfPropertyModel> {
    ps.map_values(|p: AmfProperty| p@)
}

/// The argument value of a script record: a property list when the value is
/// an object or ECMA array, otherwise its shape is irrelevant.
#[derive(Debug)]
pub enum ScriptArgs {
    Props(Vec<AmfProperty>),
    Flat,
}

/// A parsed script-data record.
#[derive(Debug)]
pub struct ScriptRecord {
    pub name: Vec<u8>,
    pub args: ScriptArgs,
}

/// Mathematical image of [`ScriptArgs`].
pub enum ScriptArgsModel {
    Props(Seq<AmfPropertyModel>),
    Flat,
}

/// Mathematical image of [`ScriptRecord`].
#[verifier::ext_equal]
pub struct ScriptRecordModel {
    pub name: Seq<u8>,
    pub args: ScriptArgsModel,
}

impl View for ScriptArgs {
    type V = ScriptArgsModel;

    open spec fn view(&self) -> ScriptArgsModel {
        match self {
            ScriptArgs::Props(ps) => ScriptArgsModel::Props(props_view(ps@)),
            ScriptArgs::Flat => ScriptArgsModel::Flat,
        }
    }
}

impl View for ScriptRecord {
    type V = ScriptRecordModel;

    open spec fn view(&self) -> ScriptRecordModel {
        ScriptRecordModel { name: self.name@, args: self.args@ }
    }
}

/// The demuxer-visible content of the AMF0 value beginning at `s`: number
/// bits, string bytes, or `Other`, assuming the value is well-formed there.
pub open spec fn amf_scalar(s: Seq<u8>) -> AmfValueModel {
    if s.len() >= 9 && s[0] == 0 {
        AmfValueModel::Number(be_u64(s.subrange(1, 9)))
    } else if s.len() >= 3 && s[0] == 2 {
        let l = be_u16(s.subrange(1, 3)) as int;
        if 3 + l <= s.len() {
            AmfValueModel::Utf8(s.subrange(3, 3 + l))
        } else {
            AmfValueModel::Other
        }
    } else {
        AmfValueModel::Other
    }
}

/// How many bytes the AMF0 value beginning at `s` occupies, or `None` when
/// no well-formed value starts there. Markers: 0 number, 1 boolean,
/// 2 string, 3 object, 4 movie clip, 5 null, 6 undefined, 7 reference,
/// 8 ECMA array, 10 strict array, 11 date, 12 long string.
pub open spec fn amf_value_len(s: Seq<u8>) -> Option<int>
    decreases s.len(), 1int, 0int,
{
    if s.len() < 1 {
        None
    } else {
        let m = s[0];
        if m == 0 {
            if s.len() >= 9 {
                Some(9)
            } else {
                None
            }
        } else if m == 1 {
            if s.len() >= 2 {
                Some(2)
            } else {
                None
            }
        } else if m == 2 || m == 4 {
            if s.len() >= 3 {
                let l = be_u16(s.subrange(1, 3)) as int;
                if 3 + l <= s.len() && valid_utf8(s.subrange(3, 3 + l)) {
                    Some(3 + l)
                } else {
                    None
                }
            } else {
                None
            }
        } else if m == 3 {
            match props_parse(s.skip(1)) {
                Some(pr) => if 0 <= pr.1 && 1 + pr.1 <= s.len() {
                    Some(1 + pr.1)
                } else {
                    None
                },
                None => None,
            }
        } else if m == 5 || m == 6 {
            Some(1)
        } else if m == 7 {
            if s.len() >= 3 {
                Some(3)
            } else {
                None
            }
        } else if m == 8 {
            if s.len() >= 5 {
                match props_parse(s.skip(5)) {
                    Some(pr) => if 0 <= pr.1 && 5 + pr.1 <= s.len() {
                        Some(5 + pr.1)
                    } else {
                        None
                    },
                    None => None,
                }
            } else {
                None
            }
        } else if m == 10 {
            if s.len() >= 5 {
                let n = be_u32(s.subrange(1, 5));
                match values_len(s.skip(5), n) {
                    Some(c) => if 0 <= c && 5 + c <= s.len() {
                        Some(5 + c)
                    } else {
                        None
                    },
                    None => None,
                }
            } else {
                None
            }
        } else if m == 11 {
            if s.len() >= 11 {
                Some(11)
            } else {
                None
            }
        } else if m == 12 {
            if s.len() >= 5 {
                let l = be_u32(s.subrange(1, 5)) as int;
                if 5 + l <= s.len() && valid_utf8(s.subrange(5, 5 + l)) {
                    Some(5 + l)
                } else {
                    None
                }
            } else {
                None
            }
        } else {
            None
        }
    }
}

/// Parses a property list terminated by the object-end marker `00 00 09`:
/// the properties (with their demuxer-visible values) and the bytes
/// consumed, or `None` when the list is malformed.
pub open spec fn props_parse(s: Seq<u8>) -> Option<(Seq<AmfPropertyModel>, int)>
    decreases s.len(), 0int, 0int,
{
    if s.len() >= 3 && s[0] == 0 && s[1] == 0 && s[2] == 9 {
        Some((Seq::<AmfPropertyModel>::empty(), 3))
    } else if s.len() >= 2 {
        let l = be_u16(s.subrange(0, 2)) as int;
        if 2 + l <= s.len() && valid_utf8(s.subrange(2, 2 + l)) {
            let name = s.subrange(2, 2 + l);
            match amf_value_len(s.skip(2 + l)) {
                Some(vl) => if 1 <= vl && 2 + l + vl <= s.len() {
                    let value = amf_scalar(s.skip(2 + l));
                    match props_parse(s.skip(2 + l + vl)) {
                        Some(rest) => Some(
                            (
                                seq![AmfPropertyModel { name, value }] + rest.0,
                                2 + l + vl + rest.1,
                            ),
                        ),
                        None => None,
                    }
                } else {
                    None
                },
                None => None,
            }
        } else {
            None
        }
    } else {
        None
    }
}

/// How many bytes `n` consecutive AMF0 values occupy at `s`, or `None` when
/// one of them is malformed.
pub open spec fn values_len(s: Seq<u8>, n: u32) -> Option<int>
    decreases s.len(), 2int, n as int,
{
    if n == 0 {
        Some(0)
    } else {
        match amf_value_len(s) {
            Some(vl) => if 1 <= vl && vl <= s.len() {
                match values_len(s.skip(vl), (n - 1) as u32) {
                    Some(rest) => if 0 <= rest && vl + rest <= s.len() {
                        Some(vl + rest)
                    } else {
                        None
                    },
                    None => None,
                }
            } else {
                None
            },
            None => None,
        }
    }
}

/// What a whole script-data payload parses to: marker 2, the record name,
/// then one argument value. Trailing bytes are allowed.
pub open spec fn spec_parse_script(s: Seq<u8>) -> Option<ScriptRecordModel> {
    if s.len() >= 3 && s[0] == 2 {
        let l = be_u16(s.subrange(1, 3)) as int;
        if 3 + l <= s.len() && valid_utf8(s.subrange(3, 3 + l)) {
            let name = s.subrange(3, 3 + l);
            let rest = s.skip(3 + l);
            if rest.len() >= 1 && rest[0] == 3 {
                match props_parse(rest.skip(1)) {
                    Some(pr) => Some(
                        ScriptRecordModel { name, args: ScriptArgsModel::Props(pr.0) },
                    ),
                    None => None,
                }
            } else if rest.len() >= 5 && rest[0] == 8 {
                match props_parse(rest.skip(5)) {
                    Some(pr) => Some(
                        ScriptRecordModel { name, args: ScriptArgsModel::Props(pr.0) },
                    ),
                    None => None,
                }
            } else {
                match amf_value_len(rest) {
                    Some(_) => Some(ScriptRecordModel { name, args: ScriptArgsModel::Flat }),
                    None => None,
                }
            }
        } else {
            None
        }
    } else {
        None
    }
}

/// Skips one AMF0 value at `pos`, returning how many bytes it occupies.
pub fn skip_amf_value(v: &Vec<u8>, pos: usize) -> (r: Option<usize>)
    requires
        pos <= v.len(),
    ensures
        ({
            let q = amf_value_len(v@.skip(pos as int));
            match r {
                Some(c) => q == Some(c as int) && 1 <= c && pos + c <= v.len(),
                None => q is None,
            }
        }),
    decreases v.len() - pos, 1int, 0int,
{
    let ghost s = v@.skip(pos as int);
    let rem = v.len() - pos;
    if rem < 1 {
        return None;
    }
    let m = v[pos];
    proof {
        assert(s[0] == m);
    }
    if m == 0 {
        if rem >= 9 {
            Some(9)
        } else {
            None
        }
    } else if m == 1 {
        if rem >= 2 {
            Some(2)
        } else {
            None
        }
    } else if m == 2 || m == 4 {
        if rem < 3 {
            return None;
        }
        let l = read_be_u16(v, pos + 1) as usize;
        proof {
            assert(v@.subrange(pos + 1 as int, pos + 3 as int) =~= s.subrange(1, 3));
        }
        if l > rem - 3 {
            return None;
        }
        let ok = is_valid_utf8_range(v, pos + 3, pos + 3 + l);
        proof {
            assert(v@.subrange(pos + 3 as int, pos + 3 + l as int) =~= s.subrange(3, 3 + l as int));
        }
        if ok {
            Some(3 + l)
        } else {
            None
        }
    } else if m == 3 {
        proof {
            assert(v@.skip(pos + 1 as int) =~= s.skip(1));
        }
        match skip_props(v, pos + 1) {
            Some(c) => Some(1 + c),
            None => None,
        }
    } else if m == 5 || m == 6 {
        Some(1)
    } else if m == 7 {
        if rem >= 3 {
            Some(3)
        } else {
            None
        }
    } else if m == 8 {
        if rem < 5 {
            return None;
        }
        proof {
            assert(v@.skip(pos + 5 as int) =~= s.skip(5));
        }
        match skip_props(v, pos + 5) {
            Some(c) => Some(5 + c),
            None => None,
        }
    } else if m == 10 {
        if rem < 5 {
            return None;
        }
        let n = read_be_u32(v, pos + 1);
        proof {
            assert(v@.subrange(pos + 1 as int, pos + 5 as int) =~= s.subrange(1, 5));
            assert(v@.skip(pos + 5 as int) =~= s.skip(5));
        }
        match skip_amf_values(v, pos + 5, n) {
            Some(c) => Some(5 + c),
            None => None,
        }
    } else if m == 11 {
        if rem >= 11 {
            Some(11)
        } else {
            None
        }
    } else if m == 12 {
        if rem < 5 {
            return None;
        }
        let l = read_be_u32(v, pos + 1);
        proof {
            assert(v@.subrange(pos + 1 as int, pos + 5 as int) =~= s.subrange(1, 5));
        }
        if (l as u64) > ((rem - 5) as u64) {
            return None;
        }
        let lu = l as usize;
        let ok = is_valid_utf8_range(v, pos + 5, pos + 5 + lu);
        proof {
            assert(v@.subrange(pos + 5 as int, pos + 5 + lu as int) =~= s.subrange(
                5,
                5 + lu as int,
            ));
        }
        if ok {
            Some(5 + lu)
        } else {
            None
        }
    } else {
        None
    }
}

/// Skips a property list terminated by the object-end marker, returning how
/// many bytes it occupies.
#[verifier::rlimit(100)]
pub fn skip_props(v: &Vec<u8>, pos: usize) -> (r: Option<usize>)
    requires
        pos <= v.len(),
    ensures
        ({
            let q = props_parse(v@.skip(pos as int));
            match r {
                Some(c) => (match q {
                    Some(qq) => qq.1 == c as int,
                    None => false,
                }) && pos + c <= v.len(),
                None => q is None,
            }
        }),
    decreases v.len() - pos, 0int, 0int,
{
    let mut p: usize = pos;
    loop
        invariant
            pos <= p <= v.len(),
            ({
                let q0 = props_parse(v@.skip(pos as int));
                let qc = props_parse(v@.skip(p as int));
                match q0 {
                    Some(a) => match qc {
                        Some(b) => a.1 == (p - pos) + b.1,
                        None => false,
                    },
                    None => qc is None,
                }
            }),
        decreases v.len() - p,
    {
        let ghost cur = v@.skip(p as int);
        let rem = v.len() - p;
        if rem >= 3 && v[p] == 0 && v[p + 1] == 0 && v[p + 2] == 9 {
            proof {
                assert(cur[0] == 0 && cur[1] == 0 && cur[2] == 9);
                assert(props_parse(cur) == Some((Seq::<AmfPropertyModel>::empty(), 3int)));
            }
            return Some(p - pos + 3);
        }
        // Not at the end marker: a property (name string, then a value) must
        // follow.
        proof {
            assert(!(cur.len() >= 3 && cur[0] == 0 && cur[1] == 0 && cur[2] == 9));
        }
        if rem < 2 {
            proof {
                assert(props_parse(cur) is None);
            }
            return None;
        }
        let l = read_be_u16(v, p) as usize;
        proof {
            assert(v@.subrange(p as int, p + 2 as int) =~= cur.subrange(0, 2));
        }
        if l > rem - 2 {
            proof {
                assert(props_parse(cur) is None);
            }
            return None;
        }
        let ok = is_valid_utf8_range(v, p + 2, p + 2 + l);
        proof {
            assert(v@.subrange(p + 2 as int, p + 2 + l as int) =~= cur.subrange(2, 2 + l as int));
        }
        if !ok {
            proof {
                assert(props_parse(cur) is None);
            }
            return None;
        }
        proof {
            assert(v@.skip(p + 2 + l as int) =~= cur.skip(2 + l as int));
        }
        match skip_amf_value(v, p + 2 + l) {
            Some(vl) => {
                proof {
                    assert(v@.skip(p + 2 + l + vl as int) =~= cur.skip(2 + l + vl as int));
                }
                p = p + 2 + l + vl;
            },
            None => {
                proof {
                    assert(props_parse(cur) is None);
                }
                return None;
            },
        }
    }
}

/// Skips `n` consecutive AMF0 values at `pos`, returning how many bytes they
/// occupy together.
pub fn skip_amf_values(v: &Vec<u8>, pos: usize, n: u32) -> (r: Option<usize>)
    requires
        pos <= v.len(),
    ensures
        ({
            let q = values_len(v@.skip(pos as int), n);
            match r {
                Some(c) => q == Some(c as int) && pos + c <= v.len(),
                None => q is None,
            }
        }),
    decreases v.len() - pos, 2int, n as int,
{
    let mut p: usize = pos;
    let mut i: u32 = 0;
    while i < n
        invariant
            pos <= p <= v.len(),
            0 <= i <= n,
            ({
                let q0 = values_len(v@.skip(pos as int), n);
                let qc = values_len(v@.skip(p as int), (n - i) as u32);
                match q0 {
                    Some(a) => match qc {
                        Some(b) => a == (p - pos) + b,
                        None => false,
                    },
                    None => qc is None,
                }
            }),
        decreases n - i,
    {
        let ghost cur = v@.skip(p as int);
        match skip_amf_value(v, p) {
            Some(vl) => {
                proof {
                    assert(v@.skip(p + vl as int) =~= cur.skip(vl as int));
                }
                p = p + vl;
                i = i + 1;
            },
            None => {
                proof {
                    assert(values_len(cur, (n - i) as u32) is None);
                }
                return None;
            },
        }
    }
    proof {
        assert(values_len(v@.skip(p as int), 0) == Some(0int));
    }
    Some(p - pos)
}

/// One step of `props_parse`: at a property (not the end marker), the parse
/// is the property followed by the parse of the remainder.
proof fn lemma_props_parse_step(s: Seq<u8>, l: int, vl: int)
    requires
        !(s.len() >= 3 && s[0] == 0 && s[1] == 0 && s[2] == 9),
        s.len() >= 2,
        l == be_u16(s.subrange(0, 2)),
        2 + l <= s.len(),
        valid_utf8(s.subrange(2, 2 + l)),
        amf_value_len(s.skip(2 + l)) == Some(vl),
        1 <= vl,
        2 + l + vl <= s.len(),
    ensures
        props_parse(s) == (match props_parse(s.skip(2 + l + vl)) {
            Some(rest) => Some(
                (
                    seq![
                        AmfPropertyModel {
                            name: s.subrange(2, 2 + l),
                            value: amf_scalar(s.skip(2 + l)),
                        },
                    ] + rest.0,
                    2 + l + vl + rest.1,
                ),
            ),
            None => None::<(Seq<AmfPropertyModel>, int)>,
        }),
{
}

/// Reads the demuxer-visible content of the well-formed AMF0 value at `pos`.
fn read_amf_scalar(v: &Vec<u8>, pos: usize) -> (value: AmfValue)
    requires
        pos <= v.len(),
        amf_value_len(v@.skip(pos as int)) is Some,
    ensures
        value@ == amf_scalar(v@.skip(pos as int)),
{
    let ghost vs = v@.skip(pos as int);
    let rem = v.len() - pos;
    proof {
        assert(vs.len() >= 1);
        assert(vs[0] == v@[pos as int]);
    }
    if v[pos] == 0 {
        proof {
            assert(vs.len() >= 9);
        }
        let bits = read_be_u64(v, pos + 1);
        proof {
            assert(v@.subrange(pos + 1 as int, pos + 9 as int) =~= vs.subrange(1, 9));
        }
        AmfValue::Number(bits)
    } else if v[pos] == 2 {
        proof {
            assert(vs.len() >= 3);
            assert(3 + be_u16(vs.subrange(1, 3)) <= vs.len());
        }
        let l2 = read_be_u16(v, pos + 1) as usize;
        proof {
            assert(v@.subrange(pos + 1 as int, pos + 3 as int) =~= vs.subrange(1, 3));
        }
        let content = copy_range(v, pos + 3, pos + 3 + l2);
        proof {
            assert(v@.subrange(pos + 3 as int, pos + 3 + l2 as int) =~= vs.subrange(
                3,
                3 + l2 as int,
            ));
        }
        AmfValue::Utf8(content)
    } else {
        AmfValue::Other
    }
}

/// Parses a property list terminated by the object-end marker, materializing
/// each property's name and demuxer-visible value.
#[verifier::rlimit(100)]
pub fn parse_amf_props(v: &Vec<u8>, pos: usize) -> (r: Option<(Vec<AmfProperty>, usize)>)
    requires
        pos <= v.len(),
    ensures
        ({
            let q = props_parse(v@.skip(pos as int));
            match r {
                Some(pu) => (match q {
                    Some(qq) => props_view(pu.0@) == qq.0 && qq.1 == pu.1 as int,
                    None => false,
                }) && pos + pu.1 <= v.len(),
                None => q is None,
            }
        }),
{
    let mut acc: Vec<AmfProperty> = Vec::new();
    let mut p: usize = pos;
    loop
        invariant
            pos <= p <= v.len(),
            ({
                let q0 = props_parse(v@.skip(pos as int));
                let qc = props_parse(v@.skip(p as int));
                match q0 {
                    Some(a) => match qc {
                        Some(b) => a.1 == (p - pos) + b.1 && a.0 == props_view(acc@) + b.0,
                        None => false,
                    },
                    None => qc is None,
                }
            }),
        decreases v.len() - p,
    {
        let ghost cur = v@.skip(p as int);
        let rem = v.len() - p;
        if rem >= 3 && v[p] == 0 && v[p + 1] == 0 && v[p + 2] == 9 {
            proof {
                assert(cur[0] == 0 && cur[1] == 0 && cur[2] == 9);
                assert(props_parse(cur) == Some((Seq::<AmfPropertyModel>::empty(), 3int)));
                if props_parse(v@.skip(pos as int)) is Some {
                    let a = props_parse(v@.skip(pos as int)).unwrap();
                    assert(a.0 =~= props_view(acc@));
                }
            }
            return Some((acc, p - pos + 3));
        }
        proof {
            assert(!(cur.len() >= 3 && cur[0] == 0 && cur[1] == 0 && cur[2] == 9));
        }
        if rem < 2 {
            proof {
                assert(props_parse(cur) is None);
            }
            return None;
        }
        let l = read_be_u16(v, p) as usize;
        proof {
            assert(v@.subrange(p as int, p + 2 as int) =~= cur.subrange(0, 2));
        }
        if l > rem - 2 {
            proof {
                assert(props_parse(cur) is None);
            }
            return None;
        }
        let ok = is_valid_utf8_range(v, p + 2, p + 2 + l);
        proof {
            assert(v@.subrange(p + 2 as int, p + 2 + l as int) =~= cur.subrange(2, 2 + l as int));
        }
        if !ok {
            proof {
                assert(props_parse(cur) is None);
            }
            return None;
        }
        let name = copy_range(v, p + 2, p + 2 + l);
        let p2 = p + 2 + l;
        proof {
            assert(v@.skip(p2 as int) =~= cur.skip(2 + l as int));
        }
        match skip_amf_value(v, p2) {
            Some(vl) => {
                let value = read_amf_scalar(v, p2);
                let prop = AmfProperty { name, value };
                proof {
                    let pm = AmfPropertyModel {
                        name: cur.subrange(2, 2 + l as int),
                        value: amf_scalar(cur.skip(2 + l as int)),
                    };
                    assert(prop@ =~= pm);
                    assert(v@.skip(p2 + vl as int) =~= cur.skip(2 + l + vl as int));
                    lemma_props_parse_step(cur, l as int, vl as int);
                    assert(props_view(acc@.push(prop)) =~= props_view(acc@) + seq![pm]);
                    let b2 = props_parse(cur.skip(2 + l + vl as int));
                    if b2 is Some {
                        assert((props_view(acc@) + (seq![pm] + b2.unwrap().0)) =~= (props_view(
                            acc@,
                        ) + seq![pm]) + b2.unwrap().0);
                    }
                }
                acc.push(prop);
                p = p2 + vl;
            },
            None => {
                proof {
                    assert(props_parse(cur) is None);
                }
                return None;
            },
        }
    }
}

/// Parses a whole script-data payload: the record name and its argument
/// value.
pub fn parse_script(v: &Vec<u8>) -> (r: Option<ScriptRecord>)
    ensures
        ({
            let q = spec_parse_script(v@);
            match r {
                Some(rec) => match q {
                    Some(qq) => rec@ == qq,
                    None => false,
                },
                None => q is None,
            }
        }),
{
    if v.len() < 3 {
        return None;
    }
    if v[0] != 2 {
        return None;
    }
    let l = read_be_u16(v, 1) as usize;
    proof {
        assert(v@.subrange(1, 3) =~= v@.subrange(1 as int, 1 + 2 as int));
    }
    if l > v.len() - 3 {
        return None;
    }
    let ok = is_valid_utf8_range(v, 3, 3 + l);
    if !ok {
        return None;
    }
    let name = copy_range(v, 3, 3 + l);
    let p = 3 + l;
    let ghost rest = v@.skip(p as int);
    let rem = v.len() - p;
    if rem >= 1 && v[p] == 3 {
        proof {
            assert(rest[0] == 3);
            assert(v@.skip(p + 1 as int) =~= rest.skip(1));
        }
        match parse_amf_props(v, p + 1) {
            Some(pu) => {
                let (props, _used) = pu;
                let rec = ScriptRecord { name, args: ScriptArgs::Props(props) };
                proof {
                    assert(rec@ =~= spec_parse_script(v@).unwrap());
                }
                Some(rec)
            },
            None => None,
        }
    } else if rem >= 5 && v[p] == 8 {
        proof {
            assert(rest[0] == 8);
            assert(v@.skip(p + 5 as int) =~= rest.skip(5));
        }
        match parse_amf_props(v, p + 5) {
            Some(pu) => {
                let (props, _used) = pu;
                let rec = ScriptRecord { name, args: ScriptArgs::Props(props) };
                proof {
                    assert(rec@ =~= spec_parse_script(v@).unwrap());
                }
                Some(rec)
            },
            None => None,
        }
    } else {
        proof {
            assert(!(rest.len() >= 1 && rest[0] == 3));
            assert(!(rest.len() >= 5 && rest[0] == 8));
        }
        match skip_amf_value(v, p) {
            Some(_) => {
                let rec = ScriptRecord { name, args: ScriptArgs::Flat };
                proof {
                    assert(rec@ =~= spec_parse_script(v@).unwrap());
                }
                Some(rec)
            },
            None => None,
        }
    }
}

} // verus!
