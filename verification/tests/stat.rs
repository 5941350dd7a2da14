use mqtt2ha_reporter::sensors::cpu::{parse_stat, AllCpuTimes, CpuTimes};

fn stat_input() -> String {
    let mut s = String::new();
    for line in [
        "cpu  307063 258 146959 9876550 5476 0 1753 0 0 0",
        "cpu0 12429 5 6413 408107 254 0 515 0 0 0",
        "cpu1 13952 70 6075 409951 287 0 242 0 0 0",
        "cpu2 13986 4 6310 410325 236 0 123 0 0 0",
        "cpu3 16947 10 7479 405690 267 0 285 0 0 0",
        "cpu4 16288 50 7191 407055 279 0 30 0 0 0",
        "cpu5 15110 9 6560 409107 261 0 32 0 0 0",
        "cpu6 13662 6 6077 411090 214 0 36 0 0 0",
        "cpu7 12496 6 5780 412657 203 0 37 0 0 0",
        "cpu8 12528 4 5672 412701 192 0 39 0 0 0",
        "cpu9 13420 3 5890 411182 218 0 77 0 0 0",
        "cpu10 13757 3 6204 410682 263 0 31 0 0 0",
        "cpu11 13697 27 6373 410555 272 0 35 0 0 0",
        "cpu12 11732 3 5174 413987 187 0 45 0 0 0",
        "cpu13 9604 4 4516 416547 159 0 203 0 0 0",
        "cpu14 9564 3 4720 416742 219 0 2 0 0 0",
        "cpu15 11346 4 5618 413823 208 0 2 0 0 0",
        "cpu16 10693 3 10574 406462 227 0 2 0 0 0",
        "cpu17 12458 4 6343 411879 224 0 1 0 0 0",
        "cpu18 11224 8 5091 414703 212 0 1 0 0 0",
        "cpu19 11617 2 5602 413599 210 0 2 0 0 0",
        "cpu20 11687 7 5363 414016 195 0 1 0 0 0",
        "cpu21 13141 5 6446 411081 201 0 1 0 0 0",
        "cpu22 13064 6 5785 412003 267 0 1 0 0 0",
        "cpu23 12649 5 5689 412597 210 0 1 0 0 0",
        "intr 81546110 55 9 0 0 0 0 0 0 1 0 0 0 0 0 0 0",
        "ctxt 141452155",
        "btime 1726000000",
    ] {
        s.push_str(line);
        s.push('\n');
    }
    s
}

#[test]
fn test_stat() {
    let stat = stat_input();
    let all_cpu_times = parse_stat(&stat).unwrap();
    assert_eq!(
        all_cpu_times,
        AllCpuTimes {
            total: CpuTimes { user: 307063, nice: 258, system: 146959, idle: 9876550, io_wait: 5476, irq: 0, soft_irq: 1753, steal: 0, guest: 0, guest_nice: 0 },
            per_cpu: vec![
            CpuTimes { user: 12429, nice: 5, system: 6413, idle: 408107, io_wait: 254, irq: 0, soft_irq: 515, steal: 0, guest: 0, guest_nice: 0 },
            CpuTimes { user: 13952, nice: 70, system: 6075, idle: 409951, io_wait: 287, irq: 0, soft_irq: 242, steal: 0, guest: 0, guest_nice: 0 },
            CpuTimes { user: 13986, nice: 4, system: 6310, idle: 410325, io_wait: 236, irq: 0, soft_irq: 123, steal: 0, guest: 0, guest_nice: 0 },
            CpuTimes { user: 16947, nice: 10, system: 7479, idle: 405690, io_wait: 267, irq: 0, soft_irq: 285, steal: 0, guest: 0, guest_nice: 0 },
            CpuTimes { user: 16288, nice: 50, system: 7191, idle: 407055, io_wait: 279, irq: 0, soft_irq: 30, steal: 0, guest: 0, guest_nice: 0 },
            CpuTimes { user: 15110, nice: 9, system: 6560, idle: 409107, io_wait: 261, irq: 0, soft_irq: 32, steal: 0, guest: 0, guest_nice: 0 },
            CpuTimes { user: 13662, nice: 6, system: 6077, idle: 411090, io_wait: 214, irq: 0, soft_irq: 36, steal: 0, guest: 0, guest_nice: 0 },
            CpuTimes { user: 12496, nice: 6, system: 5780, idle: 412657, io_wait: 203, irq: 0, soft_irq: 37, steal: 0, guest: 0, guest_nice: 0 },
            CpuTimes { user: 12528, nice: 4, system: 5672, idle: 412701, io_wait: 192, irq: 0, soft_irq: 39, steal: 0, guest: 0, guest_nice: 0 },
            CpuTimes { user: 13420, nice: 3, system: 5890, idle: 411182, io_wait: 218, irq: 0, soft_irq: 77, steal: 0, guest: 0, guest_nice: 0 },
            CpuTimes { user: 13757, nice: 3, system: 6204, idle: 410682, io_wait: 263, irq: 0, soft_irq: 31, steal: 0, guest: 0, guest_nice: 0 },
            CpuTimes { user: 13697, nice: 27, system: 6373, idle: 410555, io_wait: 272, irq: 0, soft_irq: 35, steal: 0, guest: 0, guest_nice: 0 },
            CpuTimes { user: 11732, nice: 3, system: 5174, idle: 413987, io_wait: 187, irq: 0, soft_irq: 45, steal: 0, guest: 0, guest_nice: 0 },
            CpuTimes { user: 9604, nice: 4, system: 4516, idle: 416547, io_wait: 159, irq: 0, soft_irq: 203, steal: 0, guest: 0, guest_nice: 0 },
            CpuTimes { user: 9564, nice: 3, system: 4720, idle: 416742, io_wait: 219, irq: 0, soft_irq: 2, steal: 0, guest: 0, guest_nice: 0 },
            CpuTimes { user: 11346, nice: 4, system: 5618, idle: 413823, io_wait: 208, irq: 0, soft_irq: 2, steal: 0, guest: 0, guest_nice: 0 },
            CpuTimes { user: 10693, nice: 3, system: 10574, idle: 406462, io_wait: 227, irq: 0, soft_irq: 2, steal: 0, guest: 0, guest_nice: 0 },
            CpuTimes { user: 12458, nice: 4, system: 6343, idle: 411879, io_wait: 224, irq: 0, soft_irq: 1, steal: 0, guest: 0, guest_nice: 0 },
            CpuTimes { user: 11224, nice: 8, system: 5091, idle: 414703, io_wait: 212, irq: 0, soft_irq: 1, steal: 0, guest: 0, guest_nice: 0 },
            CpuTimes { user: 11617, nice: 2, system: 5602, idle: 413599, io_wait: 210, irq: 0, soft_irq: 2, steal: 0, guest: 0, guest_nice: 0 },
            CpuTimes { user: 11687, nice: 7, system: 5363, idle: 414016, io_wait: 195, irq: 0, soft_irq: 1, steal: 0, guest: 0, guest_nice: 0 },
            CpuTimes { user: 13141, nice: 5, system: 6446, idle: 411081, io_wait: 201, irq: 0, soft_irq: 1, steal: 0, guest: 0, guest_nice: 0 },
            CpuTimes { user: 13064, nice: 6, system: 5785, idle: 412003, io_wait: 267, irq: 0, soft_irq: 1, steal: 0, guest: 0, guest_nice: 0 },
            CpuTimes { user: 12649, nice: 5, system: 5689, idle: 412597, io_wait: 210, irq: 0, soft_irq: 1, steal: 0, guest: 0, guest_nice: 0 }
            ],
        }
    )
}
