//! The caches of the CPUs, as the system describes them: which processors
//! share a cache, and what the cache is like.

use vstd::prelude::*;
use crate::hsakmttypes::{HsaCacheProperties, HsaCacheType};
use crate::properties::{
    decimal, drop_spaces, find_byte, first_byte, parse_decimal, skip_spaces, spells, spells_key,
    trim_range,
};

verus! {

/// What the system says of one processor.
#[allow(non_camel_case_types)]
#[derive(Debug)]
pub struct proc_cpuinfo {
    /// The number of the processor.
    pub proc_num: u32,
    pub apicid: u32,
    /// The name of the model, as bytes.
    pub model_name: Vec<u8>,
}

/// The caches that one processor reports.
#[allow(non_camel_case_types)]
#[derive(Debug)]
pub struct cpu_cacheinfo_t {
    /// The number of processors that are online.
    pub len: u32,
    pub proc_num: i32,
    /// The number of caches that are listed under this processor.
    pub num_caches: u32,
    pub cache_prop: Vec<HsaCacheProperties>,
}

/// Whether a byte is a digit in base 16.
pub open spec fn is_hex_digit(b: u8) -> bool {
    (48 <= b <= 57) || (65 <= b <= 70) || (97 <= b <= 102)
}

/// The number that a digit in base 16 stands for.
pub open spec fn hex_digit_value(b: u8) -> nat {
    if 48 <= b <= 57 {
        (b - 48) as nat
    } else if 65 <= b <= 70 {
        (b - 55) as nat
    } else {
        (b - 87) as nat
    }
}

/// The number that the digits `t` write in base 16.
pub open spec fn hex_digits_value(t: Seq<u8>) -> nat
    decreases t.len(),
{
    if t.len() == 0 {
        0
    } else {
        hex_digits_value(t.drop_last()) * 16 + hex_digit_value(t.last())
    }
}

/// Whether every byte of `t` is a digit in base 16.
pub open spec fn all_hex_digits(t: Seq<u8>) -> bool {
    forall|i: int| 0 <= i < t.len() ==> is_hex_digit(#[trigger] t[i])
}

/// Sixteen to the power of `k`.
pub open spec fn pow16(k: nat) -> nat
    decreases k,
{
    if k == 0 {
        1
    } else {
        16 * pow16((k - 1) as nat)
    }
}

/// Up to eight digits in base 16 write a number of 32 bits.
pub proof fn lemma_pow16_bound(k: nat)
    requires
        k <= 8,
    ensures
        pow16(k) <= 0x1_0000_0000,
        k <= 7 ==> pow16(k) <= 0x1000_0000,
{
    reveal_with_fuel(pow16, 10);
}

/// The 32 bits that a group of a map of processors writes: the number that
/// one to eight digits write in base 16, and 0 for anything else.
pub open spec fn hex_group(t: Seq<u8>) -> u32 {
    if 1 <= t.len() <= 8 && all_hex_digits(t) {
        hex_digits_value(t) as u32
    } else {
        0
    }
}

/// Reads the bytes from `from` to `to` as a group of a map of processors.
pub fn parse_hex_group(s: &[u8], from: usize, to: usize) -> (r: u32)
    requires
        from <= to <= s@.len(),
    ensures
        r == hex_group(s@.subrange(from as int, to as int)),
{
    let ghost t = s@.subrange(from as int, to as int);
    if to == from || to - from > 8 {
        return 0;
    }
    let mut value: u64 = 0;
    let mut i: usize = from;
    assert(t.take(0) =~= Seq::<u8>::empty());
    while i < to
        invariant
            from <= i <= to <= s@.len(),
            1 <= to - from <= 8,
            t == s@.subrange(from as int, to as int),
            all_hex_digits(t.take(i - from)),
            value == hex_digits_value(t.take(i - from)),
            value < pow16((i - from) as nat),
        decreases to - i,
    {
        let b: u8 = s[i];
        let ghost k = i - from;
        assert(t[k] == b);
        assert(t.take(k + 1).drop_last() =~= t.take(k));
        let digit: u64 = if 48 <= b && b <= 57 {
            (b - 48) as u64
        } else if 65 <= b && b <= 70 {
            (b - 55) as u64
        } else if 97 <= b && b <= 102 {
            (b - 87) as u64
        } else {
            assert(!all_hex_digits(t));
            return 0;
        };
        proof {
            lemma_pow16_bound(k as nat);
            assert(all_hex_digits(t.take(k + 1))) by {
                assert forall|j: int| 0 <= j < k + 1 implies is_hex_digit(
                    #[trigger] t.take(k + 1)[j],
                ) by {
                    if j < k {
                        assert(t.take(k)[j] == t.take(k + 1)[j]);
                    }
                }
            }
        }
        value = value * 16 + digit;
        i = i + 1;
    }
    proof {
        assert(t.take(to - from) =~= t);
        lemma_pow16_bound((to - from) as nat);
    }
    value as u32
}

/// The position of the last comma at or behind `from` and in front of `to`;
/// `from - 1` where there is none.
pub open spec fn last_comma(s: Seq<u8>, from: int, to: int) -> int
    decreases to - from,
{
    if to <= from {
        from - 1
    } else if s[to - 1] == 44 {
        to - 1
    } else {
        last_comma(s, from, to - 1)
    }
}

/// `last_comma` stays between `from - 1` and `to - 1`.
pub proof fn lemma_last_comma(s: Seq<u8>, from: int, to: int)
    requires
        0 <= from <= to <= s.len(),
    ensures
        from - 1 <= last_comma(s, from, to) < to || (to == from && last_comma(s, from, to) == from
            - 1),
        last_comma(s, from, to) <= to - 1,
    decreases to - from,
{
    if to > from && s[to - 1] != 44 {
        lemma_last_comma(s, from, to - 1);
    }
}

/// The position of the last comma at or behind `from` and in front of `to`,
/// counted from `from`: 0 where there is none, and one more than its distance
/// from `from` otherwise.
pub fn find_last_comma(s: &[u8], from: usize, to: usize) -> (r: usize)
    requires
        from <= to <= s@.len(),
    ensures
        r == last_comma(s@, from as int, to as int) - from + 1,
        r <= to - from,
{
    let mut i: usize = to;
    while i > from
        invariant
            from <= i <= to <= s@.len(),
            last_comma(s@, from as int, i as int) == last_comma(s@, from as int, to as int),
        decreases i - from,
    {
        if s[i - 1] == 44 {
            return i - from;
        }
        i = i - 1;
    }
    0
}

/// Whether processor `proc` is in the map of processors that the bytes from
/// `from` to `to` write. The map is written in groups of up to eight digits
/// in base 16 with commas between them; the last group holds the first 32
/// processors, the lowest bit the first, and every group in front of it the
/// next 32.
pub open spec fn cpumap_has(s: Seq<u8>, from: int, to: int, proc: nat) -> bool
    decreases to - from,
{
    let comma = last_comma(s, from, to);
    if proc < 32 {
        (hex_group(s.subrange(comma + 1, to)) >> (proc as u32)) & 1 == 1
    } else if comma < from || comma >= to {
        false
    } else {
        cpumap_has(s, from, comma, (proc - 32) as nat)
    }
}

/// Whether processor `proc` is in the map of processors that the bytes from
/// `from` to `to` write.
pub fn cpumap_bit(s: &[u8], from: usize, to: usize, proc: usize) -> (r: bool)
    requires
        from <= to <= s@.len(),
    ensures
        r == cpumap_has(s@, from as int, to as int, proc as nat),
{
    let mut end: usize = to;
    let mut left: usize = proc;
    loop
        invariant
            from <= end <= to <= s@.len(),
            cpumap_has(s@, from as int, end as int, left as nat) == cpumap_has(
                s@,
                from as int,
                to as int,
                proc as nat,
            ),
        decreases end - from,
    {
        proof {
            lemma_last_comma(s@, from as int, end as int);
        }
        let behind: usize = find_last_comma(s, from, end);
        if left < 32 {
            let group: u32 = parse_hex_group(s, from + behind, end);
            return (group >> (left as u32)) & 1 == 1;
        }
        if behind == 0 {
            return false;
        }
        end = from + behind - 1;
        left = left - 32;
    }
}

/// Whether the map of processors that `s` writes, white space at its ends
/// left aside, holds a processor among the first `count` of `cpuinfo` whose
/// id is `apicid`.
pub open spec fn has_sibling(s: Seq<u8>, cpuinfo: Seq<proc_cpuinfo>, count: int, apicid: u32) -> bool {
    exists|p: int|
        0 <= p < count && p < cpuinfo.len() && #[trigger] cpumap_has(
            s,
            skip_spaces(s, 0, s.len() as int),
            drop_spaces(s, skip_spaces(s, 0, s.len() as int), s.len() as int),
            p as nat,
        ) && cpuinfo[p].apicid == apicid
}

/// Marks, in the map of siblings of `this_cache`, every processor that the
/// map of processors `shared_cpu_map` holds, by its id. A processor that
/// `cpuinfo` does not know, or whose id is 256 or more, is left out.
pub fn cpumap_to_cpu_ci(
    shared_cpu_map: &[u8],
    cpuinfo: &Vec<proc_cpuinfo>,
    this_cache: &mut HsaCacheProperties,
)
    ensures
        forall|a: int|
            0 <= a < 256 ==> #[trigger] final(this_cache).SiblingMap@[a] == (if has_sibling(
                shared_cpu_map@,
                cpuinfo@,
                cpuinfo@.len() as int,
                a as u32,
            ) {
                1u32
            } else {
                old(this_cache).SiblingMap@[a]
            }),
        final(this_cache).ProcessorIdLow == old(this_cache).ProcessorIdLow,
        final(this_cache).CacheLevel == old(this_cache).CacheLevel,
        final(this_cache).CacheSize == old(this_cache).CacheSize,
        final(this_cache).CacheLineSize == old(this_cache).CacheLineSize,
        final(this_cache).CacheLinesPerTag == old(this_cache).CacheLinesPerTag,
        final(this_cache).CacheAssociativity == old(this_cache).CacheAssociativity,
        final(this_cache).CacheLatency == old(this_cache).CacheLatency,
        final(this_cache).CacheType == old(this_cache).CacheType,
{
    let s = shared_cpu_map;
    let n: usize = s.len();
    let (a, b) = trim_range(s, 0, n);
    let ghost before = this_cache.SiblingMap@;
    let count: usize = cpuinfo.len();
    let mut p: usize = 0;
    while p < count
        invariant
            0 <= p <= count,
            count == cpuinfo@.len(),
            n == s@.len(),
            a <= b <= n,
            a == skip_spaces(s@, 0, n as int),
            b == drop_spaces(s@, a as int, n as int),
            this_cache.SiblingMap@.len() == 256,
            before.len() == 256,
            forall|i: int|
                0 <= i < 256 ==> #[trigger] this_cache.SiblingMap@[i] == (if has_sibling(
                    s@,
                    cpuinfo@,
                    p as int,
                    i as u32,
                ) {
                    1u32
                } else {
                    before[i]
                }),
            this_cache.ProcessorIdLow == old(this_cache).ProcessorIdLow,
            this_cache.CacheLevel == old(this_cache).CacheLevel,
            this_cache.CacheSize == old(this_cache).CacheSize,
            this_cache.CacheLineSize == old(this_cache).CacheLineSize,
            this_cache.CacheLinesPerTag == old(this_cache).CacheLinesPerTag,
            this_cache.CacheAssociativity == old(this_cache).CacheAssociativity,
            this_cache.CacheLatency == old(this_cache).CacheLatency,
            this_cache.CacheType == old(this_cache).CacheType,
        decreases count - p,
    {
        let marked: bool = cpumap_bit(s, a, b, p);
        let apicid: u32 = cpuinfo[p].apicid;
        let ghost map_before = this_cache.SiblingMap@;
        if marked && apicid < 256 {
            this_cache.SiblingMap[apicid as usize] = 1;
        }
        proof {
            assert forall|i: int| 0 <= i < 256 implies #[trigger] this_cache.SiblingMap@[i] == (
            if has_sibling(s@, cpuinfo@, p + 1, i as u32) {
                1u32
            } else {
                before[i]
            }) by {
                if has_sibling(s@, cpuinfo@, p as int, i as u32) {
                    let w = choose|w: int|
                        0 <= w < p && w < cpuinfo@.len() && #[trigger] cpumap_has(
                            s@,
                            skip_spaces(s@, 0, s@.len() as int),
                            drop_spaces(s@, skip_spaces(s@, 0, s@.len() as int), s@.len() as int),
                            w as nat,
                        ) && cpuinfo@[w].apicid == i as u32;
                    assert(cpumap_has(s@, a as int, b as int, w as nat));
                    assert(has_sibling(s@, cpuinfo@, p + 1, i as u32));
                } else if marked && apicid == i {
                    let w: int = p as int;
                    assert(cpumap_has(
                        s@,
                        skip_spaces(s@, 0, s@.len() as int),
                        drop_spaces(s@, skip_spaces(s@, 0, s@.len() as int), s@.len() as int),
                        w as nat,
                    ));
                    assert(cpuinfo@[w].apicid == i as u32);
                    assert(has_sibling(s@, cpuinfo@, p + 1, i as u32));
                } else {
                    if has_sibling(s@, cpuinfo@, p + 1, i as u32) {
                        let w = choose|w: int|
                            0 <= w < p + 1 && w < cpuinfo@.len() && #[trigger] cpumap_has(
                                s@,
                                skip_spaces(s@, 0, s@.len() as int),
                                drop_spaces(
                                    s@,
                                    skip_spaces(s@, 0, s@.len() as int),
                                    s@.len() as int,
                                ),
                                w as nat,
                            ) && cpuinfo@[w].apicid == i as u32;
                        if w < p {
                            assert(has_sibling(s@, cpuinfo@, p as int, i as u32));
                        }
                    }
                }
            }
        }
        p = p + 1;
    }
}

/// The first processor of a list of processors, which is written as numbers
/// or ranges of numbers with commas between them: the number in front of the
/// comma where there is one comma, the number in front of the first hyphen,
/// or the only number, where there is none, and -1 for any other list and
/// where no number stands there.
pub open spec fn first_cpu(s: Seq<u8>) -> int {
    let n = s.len() as int;
    let comma = first_byte(s, 44, 0, n);
    if comma < n && first_byte(s, 44, comma + 1, n) < n {
        -1
    } else {
        let end = if comma < n {
            comma
        } else {
            first_byte(s, 45, 0, n)
        };
        match decimal(
            s.subrange(skip_spaces(s, 0, end), drop_spaces(s, skip_spaces(s, 0, end), end)),
        ) {
            Some(v) => if v <= i32::MAX {
                v as int
            } else {
                -1
            },
            None => -1,
        }
    }
}

/// The first processor of a list of processors.
pub fn first_cpu_of_list(list: &[u8]) -> (r: i32)
    ensures
        r == first_cpu(list@),
{
    let n: usize = list.len();
    let comma: usize = find_byte(list, 44, 0, n);
    if comma < n && find_byte(list, 44, comma + 1, n) < n {
        return -1;
    }
    let end: usize = if comma < n {
        comma
    } else {
        find_byte(list, 45, 0, n)
    };
    match parse_trimmed(list, 0, end) {
        Some(v) => if v <= 0x7FFF_FFFF {
            v as i32
        } else {
            -1
        },
        None => -1,
    }
}

/// Reads the bytes from `from` to `to`, white space at their ends left
/// aside, as a number in decimal.
pub fn parse_trimmed(s: &[u8], from: usize, to: usize) -> (r: Option<u64>)
    requires
        from <= to <= s@.len(),
    ensures
        r == decimal(
            s@.subrange(
                skip_spaces(s@, from as int, to as int),
                drop_spaces(s@, skip_spaces(s@, from as int, to as int), to as int),
            ),
        ),
{
    let (a, b) = trim_range(s, from, to);
    parse_decimal(s, a, b)
}

/// The number that `s` writes, white space at its ends left aside, as far as
/// 32 bits hold it; 0 where it writes none.
pub open spec fn number_or_zero(s: Seq<u8>) -> u32 {
    match decimal(
        s.subrange(
            skip_spaces(s, 0, s.len() as int),
            drop_spaces(s, skip_spaces(s, 0, s.len() as int), s.len() as int),
        ),
    ) {
        Some(v) => v as u32,
        None => 0,
    }
}

/// The number that `s` writes, or 0.
pub fn read_number_or_zero(s: &[u8]) -> (r: u32)
    ensures
        r == number_or_zero(s@),
{
    match parse_trimmed(s, 0, s.len()) {
        Some(v) => #[verifier::truncate] (v as u32),
        None => 0,
    }
}

/// The size that `s` writes: a number with a letter for its unit behind it.
/// It is the number, white space left aside, as far as 32 bits hold it, and 0
/// where no number stands in front of the last byte.
pub open spec fn size_with_unit(s: Seq<u8>) -> u32 {
    let a = skip_spaces(s, 0, s.len() as int);
    let b = drop_spaces(s, a, s.len() as int);
    if b <= a {
        0
    } else {
        match decimal(s.subrange(a, b - 1)) {
            Some(v) => v as u32,
            None => 0,
        }
    }
}

/// The size that `s` writes, without its unit.
pub fn read_size_with_unit(s: &[u8]) -> (r: u32)
    ensures
        r == size_with_unit(s@),
{
    let (a, b) = trim_range(s, 0, s.len());
    if b <= a {
        return 0;
    }
    match parse_decimal(s, a, b - 1) {
        Some(v) => #[verifier::truncate] (v as u32),
        None => 0,
    }
}

/// Whether `s`, white space at its ends left aside, spells `word`.
pub open spec fn is_word(s: Seq<u8>, word: Seq<char>) -> bool {
    spells(
        s,
        skip_spaces(s, 0, s.len() as int),
        drop_spaces(s, skip_spaces(s, 0, s.len() as int), s.len() as int),
        word,
    )
}

/// Whether `s`, white space at its ends left aside, spells `word`.
pub fn reads_word(s: &[u8], word: &str) -> (r: bool)
    ensures
        r == is_word(s@, word@),
{
    let (a, b) = trim_range(s, 0, s.len());
    spells_key(s, a, b, word)
}

/// What a cache of a CPU holds, by the word that the system has for it: data,
/// instructions, or both where it is unified; and that it serves a CPU.
pub open spec fn cpu_cache_type(s: Seq<u8>) -> u32 {
    if is_word(s, "Unified"@) {
        7
    } else if is_word(s, "Data"@) {
        5
    } else if is_word(s, "Instruction"@) {
        6
    } else {
        4
    }
}

/// What a cache of a CPU holds, by the word that the system has for it.
pub fn read_cpu_cache_type(s: &[u8]) -> (kind: HsaCacheType)
    ensures
        kind.Value == cpu_cache_type(s@),
{
    if reads_word(s, "Unified") {
        HsaCacheType { Value: 7 }
    } else if reads_word(s, "Data") {
        HsaCacheType { Value: 5 }
    } else if reads_word(s, "Instruction") {
        HsaCacheType { Value: 6 }
    } else {
        HsaCacheType { Value: 4 }
    }
}

/// Whether the cache that lists its processors as `shared_cpu_list` is
/// listed under processor `proc_num`: a cache that several processors share
/// is listed under the first of them only.
pub fn cache_is_listed_under(shared_cpu_list: &[u8], proc_num: i32) -> (r: bool)
    ensures
        r == (first_cpu(shared_cpu_list@) == proc_num),
{
    first_cpu_of_list(shared_cpu_list) == proc_num
}

/// Takes a cache that was read for a processor into the caches of the
/// processor, or counts the cache out where it is listed under another
/// processor: `cache` is nothing then. Hands back the number of caches that
/// are left to the processor.
pub fn get_cpu_cache_info(cpu_ci: &mut cpu_cacheinfo_t, cache: Option<HsaCacheProperties>) -> (r:
    i32)
    ensures
        final(cpu_ci).len == old(cpu_ci).len,
        final(cpu_ci).proc_num == old(cpu_ci).proc_num,
        cache is Some ==> final(cpu_ci).cache_prop@ == old(cpu_ci).cache_prop@.push(cache->Some_0)
            && final(cpu_ci).num_caches == old(cpu_ci).num_caches,
        cache is None ==> final(cpu_ci).cache_prop@ == old(cpu_ci).cache_prop@,
        cache is None ==> final(cpu_ci).num_caches == (if old(cpu_ci).num_caches > 0 {
            (old(cpu_ci).num_caches - 1) as u32
        } else {
            0u32
        }),
        r == final(cpu_ci).num_caches as i32,
{
    match cache {
        Some(c) => {
            cpu_ci.cache_prop.push(c);
        },
        None => {
            if cpu_ci.num_caches > 0 {
                cpu_ci.num_caches = cpu_ci.num_caches - 1;
            }
        },
    }
    #[verifier::truncate]
    (cpu_ci.num_caches as i32)
}

/// The number of a processor out of the name of its directory, which is
/// `cpu` and the number; nothing for any other name.
pub fn cpu_number_of(name: &[u8]) -> (r: Option<i32>)
    ensures
        r is Some <==> name@.len() >= 3 && name@[0] == 99 && name@[1] == 112 && name@[2] == 117
            && decimal(name@.subrange(3, name@.len() as int)) is Some && decimal(
            name@.subrange(3, name@.len() as int),
        )->Some_0 <= i32::MAX,
        r is Some ==> r->Some_0 == decimal(name@.subrange(3, name@.len() as int))->Some_0,
{
    let n: usize = name.len();
    if n < 3 || name[0] != 99 || name[1] != 112 || name[2] != 117 {
        return None;
    }
    match parse_decimal(name, 3, n) {
        Some(v) => if v <= 0x7FFF_FFFF {
            Some(v as i32)
        } else {
            None
        },
        None => None,
    }
}

/// What the system says of one processor, as plain values.
pub struct CpuModel {
    pub proc_num: u32,
    pub apicid: u32,
    pub model_name: Seq<u8>,
}

impl View for proc_cpuinfo {
    type V = CpuModel;

    open spec fn view(&self) -> CpuModel {
        CpuModel { proc_num: self.proc_num, apicid: self.apicid, model_name: self.model_name@ }
    }
}

/// The processors as plain values, in their order.
pub open spec fn cpu_models(cpuinfo: Seq<proc_cpuinfo>) -> Seq<CpuModel> {
    Seq::new(cpuinfo.len(), |i: int| cpuinfo[i]@)
}

/// Whether the bytes from `from` to `to`, white space at their ends left
/// aside, spell `word`.
pub open spec fn spells_trimmed(s: Seq<u8>, from: int, to: int, word: Seq<char>) -> bool {
    spells(s, skip_spaces(s, from, to), drop_spaces(s, skip_spaces(s, from, to), to), word)
}

/// The processors once the line from `from` to `to` is taken in. A line says
/// something where it holds one colon, with a name in front of it and a value
/// behind it. The name `processor` starts the next processor, which is
/// numbered by its position; `model name` and `apicid` say something of the
/// processor that was started last.
pub open spec fn with_cpuinfo_line(s: Seq<u8>, from: int, to: int, infos: Seq<CpuModel>) -> Seq<
    CpuModel,
> {
    let colon = first_byte(s, 58, from, to);
    if !(colon < to && first_byte(s, 58, colon + 1, to) == to) {
        infos
    } else if spells_trimmed(s, from, colon, "processor"@) {
        infos.push(
            CpuModel { proc_num: infos.len() as u32, apicid: 0, model_name: Seq::<u8>::empty() },
        )
    } else if infos.len() == 0 {
        infos
    } else if spells_trimmed(s, from, colon, "model name"@) {
        infos.update(
            infos.len() - 1,
            CpuModel {
                model_name: s.subrange(
                    skip_spaces(s, colon + 1, to),
                    drop_spaces(s, skip_spaces(s, colon + 1, to), to),
                ),
                ..infos.last()
            },
        )
    } else if spells_trimmed(s, from, colon, "apicid"@) {
        match decimal(
            s.subrange(
                skip_spaces(s, colon + 1, to),
                drop_spaces(s, skip_spaces(s, colon + 1, to), to),
            ),
        ) {
            Some(v) => if v <= u32::MAX {
                infos.update(infos.len() - 1, CpuModel { apicid: v as u32, ..infos.last() })
            } else {
                infos
            },
            None => infos,
        }
    } else {
        infos
    }
}

/// The processors once every line of the text from `from` on is taken in.
pub open spec fn cpuinfo_from(s: Seq<u8>, from: int, infos: Seq<CpuModel>) -> Seq<CpuModel>
    decreases s.len() - from,
{
    if from > s.len() {
        infos
    } else {
        let end = first_byte(s, 10, from, s.len() as int);
        let taken = with_cpuinfo_line(s, from, end, infos);
        if end >= s.len() || end < from {
            taken
        } else {
            cpuinfo_from(s, end + 1, taken)
        }
    }
}

/// A copy of the bytes from `from` to `to`.
pub fn copy_bytes(s: &[u8], from: usize, to: usize) -> (copy: Vec<u8>)
    requires
        from <= to <= s@.len(),
    ensures
        copy@ == s@.subrange(from as int, to as int),
{
    let mut copy: Vec<u8> = Vec::new();
    let mut i: usize = from;
    while i < to
        invariant
            from <= i <= to <= s@.len(),
            copy@ == s@.subrange(from as int, i as int),
        decreases to - i,
    {
        copy.push(s[i]);
        assert(copy@ =~= s@.subrange(from as int, i + 1));
        i = i + 1;
    }
    assert(copy@ =~= s@.subrange(from as int, to as int));
    copy
}

/// Reads what the system says of its processors from the text in which it
/// describes them.
pub fn topology_parse_cpuinfo(content: &[u8]) -> (cpu_info: Vec<proc_cpuinfo>)
    ensures
        cpu_models(cpu_info@) == cpuinfo_from(content@, 0, Seq::<CpuModel>::empty()),
{
    let s = content;
    let n: usize = s.len();
    let mut cpu_info: Vec<proc_cpuinfo> = Vec::new();
    let mut from: usize = 0;
    assert(cpu_models(cpu_info@) =~= Seq::<CpuModel>::empty());
    loop
        invariant_except_break
            n == s@.len(),
            0 <= from <= n,
            cpuinfo_from(s@, from as int, cpu_models(cpu_info@)) == cpuinfo_from(
                s@,
                0,
                Seq::<CpuModel>::empty(),
            ),
        ensures
            cpu_models(cpu_info@) == cpuinfo_from(s@, 0, Seq::<CpuModel>::empty()),
        decreases n - from,
    {
        let end: usize = find_byte(s, 10, from, n);
        let ghost before = cpu_models(cpu_info@);
        let colon: usize = find_byte(s, 58, from, end);
        if colon < end && find_byte(s, 58, colon + 1, end) == end {
            let (ka, kb) = trim_range(s, from, colon);
            let (va, vb) = trim_range(s, colon + 1, end);
            let count: usize = cpu_info.len();
            if spells_key(s, ka, kb, "processor") {
                cpu_info.push(
                    proc_cpuinfo {
                        proc_num: #[verifier::truncate] (count as u32),
                        apicid: 0,
                        model_name: Vec::new(),
                    },
                );
                assert(cpu_models(cpu_info@) =~= before.push(
                    CpuModel {
                        proc_num: before.len() as u32,
                        apicid: 0,
                        model_name: Seq::<u8>::empty(),
                    },
                ));
            } else if count > 0 {
                if spells_key(s, ka, kb, "model name") {
                    cpu_info[count - 1].model_name = copy_bytes(s, va, vb);
                    assert(cpu_models(cpu_info@) =~= before.update(
                        before.len() - 1,
                        CpuModel { model_name: s@.subrange(va as int, vb as int), ..before.last() },
                    ));
                } else if spells_key(s, ka, kb, "apicid") {
                    match parse_decimal(s, va, vb) {
                        Some(v) => {
                            if v <= 0xFFFF_FFFF {
                                cpu_info[count - 1].apicid = v as u32;
                                assert(cpu_models(cpu_info@) =~= before.update(
                                    before.len() - 1,
                                    CpuModel { apicid: v as u32, ..before.last() },
                                ));
                            }
                        },
                        None => {},
                    }
                }
            }
        }
        assert(cpu_models(cpu_info@) == with_cpuinfo_line(s@, from as int, end as int, before));
        if end >= n {
            break ;
        }
        from = end + 1;
    }
    cpu_info
}

} // verus!
