use hsakmt_rs::cpuinfo::{
    cache_is_listed_under, copy_bytes, cpu_cacheinfo_t, cpu_number_of, cpumap_bit,
    cpumap_to_cpu_ci, find_last_comma, first_cpu_of_list, get_cpu_cache_info, parse_hex_group,
    parse_trimmed, proc_cpuinfo, read_cpu_cache_type, read_number_or_zero, read_size_with_unit,
    reads_word, topology_parse_cpuinfo,
};
use hsakmt_rs::hsakmttypes::HsaCacheProperties;

fn cpus(apicids: &[u32]) -> Vec<proc_cpuinfo> {
    apicids
        .iter()
        .enumerate()
        .map(|(i, a)| proc_cpuinfo { proc_num: i as u32, apicid: *a, model_name: Vec::new() })
        .collect()
}

#[test]
fn groups_of_a_map_are_read_in_base_16() {
    assert_eq!(parse_hex_group(b"ff", 0, 2), 0xFF);
    assert_eq!(parse_hex_group(b"FFFFFFFF", 0, 8), 0xFFFF_FFFF);
    assert_eq!(parse_hex_group(b"0000a0B1", 0, 8), 0xA0B1);
    assert_eq!(parse_hex_group(b"123456789", 0, 9), 0);
    assert_eq!(parse_hex_group(b"", 0, 0), 0);
    assert_eq!(parse_hex_group(b"1g", 0, 2), 0);
    assert_eq!(parse_hex_group(b"0x1", 0, 3), 0);
    assert_eq!(parse_hex_group(b"xx7fxx", 2, 4), 0x7F);
    assert_eq!(find_last_comma(b"a,b,c", 0, 5), 4);
    assert_eq!(find_last_comma(b"a,b,c", 0, 3), 2);
    assert_eq!(find_last_comma(b"a,b,c", 2, 3), 0);
    assert_eq!(find_last_comma(b"abc", 0, 3), 0);
}

#[test]
fn processors_of_a_map_are_counted_from_the_right() {
    let map = b"00000001,80000000,00000005";
    let n = map.len();
    assert!(cpumap_bit(map, 0, n, 0));
    assert!(!cpumap_bit(map, 0, n, 1));
    assert!(cpumap_bit(map, 0, n, 2));
    assert!(!cpumap_bit(map, 0, n, 31));
    assert!(!cpumap_bit(map, 0, n, 32));
    assert!(cpumap_bit(map, 0, n, 63));
    assert!(cpumap_bit(map, 0, n, 64));
    assert!(!cpumap_bit(map, 0, n, 65));
    assert!(!cpumap_bit(map, 0, n, 96));
    assert!(!cpumap_bit(map, 0, n, 1000));
    assert!(cpumap_bit(b"3", 0, 1, 1));
    assert!(!cpumap_bit(b"3", 0, 1, 2));
    assert!(!cpumap_bit(b"", 0, 0, 0));
}

#[test]
fn siblings_are_marked_by_their_ids() {
    let cpuinfo = cpus(&[0, 2, 4, 300, 255, 7]);
    let mut cache = HsaCacheProperties::new();
    cache.CacheLevel = 2;
    cache.SiblingMap[9] = 5;
    cpumap_to_cpu_ci(b"0000001b\n", &cpuinfo, &mut cache);
    let marked: Vec<usize> = (0..256).filter(|i| cache.SiblingMap[*i] == 1).collect();
    assert_eq!(marked, vec![0, 2, 255]);
    assert_eq!(cache.SiblingMap[9], 5);
    assert_eq!(cache.SiblingMap[4], 0);
    assert_eq!(cache.CacheLevel, 2);
    let mut wide = HsaCacheProperties::new();
    cpumap_to_cpu_ci(b"ffffffff,ffffffff", &cpuinfo, &mut wide);
    let marked: Vec<usize> = (0..256).filter(|i| wide.SiblingMap[*i] == 1).collect();
    assert_eq!(marked, vec![0, 2, 4, 7, 255]);
}

#[test]
fn the_first_processor_of_a_list() {
    assert_eq!(first_cpu_of_list(b"0-7\n"), 0);
    assert_eq!(first_cpu_of_list(b"12-15"), 12);
    assert_eq!(first_cpu_of_list(b"3,19\n"), 3);
    assert_eq!(first_cpu_of_list(b"5\n"), 5);
    assert_eq!(first_cpu_of_list(b" 6 "), 6);
    assert_eq!(first_cpu_of_list(b"0-3,8-11\n"), -1);
    assert_eq!(first_cpu_of_list(b"0,4,8"), -1);
    assert_eq!(first_cpu_of_list(b""), -1);
    assert_eq!(first_cpu_of_list(b"x-3"), -1);
    assert_eq!(first_cpu_of_list(b"4294967296"), -1);
    assert!(cache_is_listed_under(b"4-7\n", 4));
    assert!(!cache_is_listed_under(b"4-7\n", 5));
    assert!(cache_is_listed_under(b"0,1,2", -1));
}

#[test]
fn numbers_sizes_and_words() {
    assert_eq!(parse_trimmed(b"  42\n", 0, 5), Some(42));
    assert_eq!(parse_trimmed(b"  4 2\n", 0, 6), None);
    assert_eq!(read_number_or_zero(b"64\n"), 64);
    assert_eq!(read_number_or_zero(b"none\n"), 0);
    assert_eq!(read_number_or_zero(b""), 0);
    assert_eq!(read_size_with_unit(b"32K\n"), 32);
    assert_eq!(read_size_with_unit(b"1024K"), 1024);
    assert_eq!(read_size_with_unit(b"K"), 0);
    assert_eq!(read_size_with_unit(b"\n"), 0);
    assert_eq!(read_size_with_unit(b"12"), 1);
    assert!(reads_word(b"Data\n", "Data"));
    assert!(!reads_word(b"Data\n", "Dat"));
    assert!(!reads_word(b"data\n", "Data"));
    assert_eq!(read_cpu_cache_type(b"Data\n").Value, 5);
    assert_eq!(read_cpu_cache_type(b"Instruction\n").Value, 6);
    assert_eq!(read_cpu_cache_type(b"Unified\n").Value, 7);
    assert_eq!(read_cpu_cache_type(b"Other\n").Value, 4);
    let kind = read_cpu_cache_type(b"Unified").fields();
    assert_eq!((kind.Data, kind.Instruction, kind.CPU, kind.HSACU), (1, 1, 1, 0));
    assert_eq!(cpu_number_of(b"cpu12"), Some(12));
    assert_eq!(cpu_number_of(b"cpu0"), Some(0));
    assert_eq!(cpu_number_of(b"cpulist"), None);
    assert_eq!(cpu_number_of(b"cpu"), None);
    assert_eq!(cpu_number_of(b"cp1"), None);
    assert_eq!(copy_bytes(b"abcdef", 2, 5), b"cde".to_vec());
}

#[test]
fn caches_are_kept_or_counted_out() {
    let mut ci = cpu_cacheinfo_t { len: 8, proc_num: 2, num_caches: 3, cache_prop: Vec::new() };
    assert_eq!(get_cpu_cache_info(&mut ci, None), 2);
    let mut cache = HsaCacheProperties::new();
    cache.CacheLevel = 1;
    assert_eq!(get_cpu_cache_info(&mut ci, Some(cache)), 2);
    assert_eq!(ci.cache_prop.len(), 1);
    assert_eq!(ci.cache_prop[0].CacheLevel, 1);
    assert_eq!(get_cpu_cache_info(&mut ci, None), 1);
    assert_eq!(get_cpu_cache_info(&mut ci, None), 0);
    assert_eq!(get_cpu_cache_info(&mut ci, None), 0);
    assert_eq!((ci.len, ci.proc_num), (8, 2));
}

#[test]
fn test_topology_parse_cpuinfo() {
    let text = b"processor\t: 0\nvendor_id\t: AuthenticAMD\nmodel name\t: AMD EPYC 7763 64-Core Processor\napicid\t\t: 0\nflags\t\t: fpu vme\n\nprocessor\t: 1\nmodel name\t: AMD EPYC 7763 64-Core Processor\napicid\t\t: 2\naddress sizes\t: 48 bits physical, 48 bits virtual\n\nprocessor\t: 7\napicid\t\t: x\n";
    let cpu_info = topology_parse_cpuinfo(text);
    println!("{:#?}", cpu_info);
    println!("{:#?}", cpu_info.len());
    assert_eq!(cpu_info.len(), 3);
    assert_eq!(cpu_info[0].proc_num, 0);
    assert_eq!(cpu_info[0].apicid, 0);
    assert_eq!(cpu_info[0].model_name, b"AMD EPYC 7763 64-Core Processor".to_vec());
    assert_eq!(cpu_info[1].proc_num, 1);
    assert_eq!(cpu_info[1].apicid, 2);
    assert_eq!(cpu_info[2].proc_num, 2);
    assert_eq!(cpu_info[2].apicid, 0);
    assert!(cpu_info[2].model_name.is_empty());
    assert!(topology_parse_cpuinfo(b"apicid : 4\nmodel name : x\n").is_empty());
    assert!(topology_parse_cpuinfo(b"").is_empty());
    assert_eq!(topology_parse_cpuinfo(b"processor: 5: 6\nprocessor:\n").len(), 1);
}
