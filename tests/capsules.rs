use tock::i2c_dummy::{
    AccelClient, AccelReport, I2CCommand, LiClient, LiReport, ScanClient, ScanStep, TMP006Client, TmpReport,
    ACCEL_ADDRESS, LI_ADDRESS, TMP006_ADDRESS,
};
use tock::list::{List, ListLink};
use tock::virtual_i2c::{I2CController, I2CDevice, I2CError, MuxI2C, Op};

fn mux_with(addrs: &[u8]) -> (MuxI2C, Vec<usize>) {
    let mut mux = MuxI2C::new(I2CController::new());
    let mut ids = Vec::new();
    for (client, addr) in addrs.iter().enumerate() {
        let id = mux.add_device(I2CDevice::new(*addr));
        I2CDevice::set_client(&mut mux, id, client);
        ids.push(id);
    }
    (mux, ids)
}

#[test]
fn list_push_head_orders_newest_first() {
    let mut list = List::new();
    assert_eq!(list.head(), None);
    list.push_head(3);
    list.push_head(0);
    list.push_head(7);
    assert_eq!(list.head(), Some(7));
    let mut it = list.iter();
    assert_eq!(it.next(&list), Some(7));
    assert_eq!(it.next(&list), Some(0));
    assert_eq!(it.next(&list), Some(3));
    assert_eq!(it.next(&list), None);
    assert_eq!(it.next(&list), None);
    assert_eq!(ListLink::empty(), ListLink(None));
}

#[test]
fn two_clients_served_head_first() {
    let (mut mux, ids) = mux_with(&[0x10, 0x20]);
    let (a, b) = (ids[0], ids[1]);
    mux.enable_device(a);
    mux.enable_device(b);
    // A's read starts at once; B's write waits.
    mux.read(a, vec![0u8; 8], 8);
    assert_eq!(mux.bus_current(), Some((0x10, Op::Read(8), 8)));
    mux.write(b, vec![1, 2, 3, 4], 4);
    assert_eq!(mux.bus_current(), Some((0x10, Op::Read(8), 8)));
    let first = mux.command_complete(I2CError::CommandComplete).unwrap();
    assert_eq!((first.device, first.client), (a, Some(0)));
    assert_eq!(first.buffer, vec![0u8; 8]);
    assert_eq!(mux.bus_current(), Some((0x20, Op::Write(4), 4)));
    let second = mux.command_complete(I2CError::DataNak).unwrap();
    assert_eq!((second.device, second.client), (b, Some(1)));
    assert_eq!(second.buffer, vec![1, 2, 3, 4]);
    assert_eq!(second.error, I2CError::DataNak);
    assert_eq!(mux.inflight(), None);
    assert!(mux.command_complete(I2CError::CommandComplete).is_none());
}

#[test]
fn pending_devices_served_in_list_order() {
    // The list is built by head insertion: the last device added is served first.
    let (mut mux, ids) = mux_with(&[0x10, 0x20, 0x30]);
    mux.write(ids[0], vec![0], 1);
    mux.write(ids[1], vec![1], 1);
    mux.write(ids[2], vec![2], 1);
    let order: Vec<usize> = (0..3).map(|_| mux.command_complete(I2CError::CommandComplete).unwrap().device).collect();
    assert_eq!(order, vec![ids[0], ids[2], ids[1]]);
}

#[test]
fn buffer_returned_once_to_its_device() {
    let (mut mux, ids) = mux_with(&[0x44]);
    mux.write_read(ids[0], vec![9, 8, 7], 1, 2);
    assert_eq!(mux.bus_current(), Some((0x44, Op::WriteRead(1, 2), 3)));
    let done = mux.command_complete(I2CError::CommandComplete).unwrap();
    assert_eq!(done.device, ids[0]);
    assert_eq!(done.buffer, vec![9, 8, 7]);
    assert_eq!(mux.bus_current(), None);
    assert!(mux.command_complete(I2CError::CommandComplete).is_none());
}

#[test]
fn enable_disable_balanced() {
    let (mut mux, ids) = mux_with(&[1, 2]);
    assert_eq!(mux.enabled(), 0);
    assert!(!mux.bus_enabled());
    mux.enable_device(ids[0]);
    assert_eq!(mux.enabled(), 1);
    assert!(mux.bus_enabled());
    mux.enable_device(ids[0]);
    assert_eq!(mux.enabled(), 1);
    mux.enable_device(ids[1]);
    assert_eq!(mux.enabled(), 2);
    mux.disable_device(ids[1]);
    assert_eq!(mux.enabled(), 1);
    assert!(mux.bus_enabled());
    mux.disable_device(ids[0]);
    assert_eq!(mux.enabled(), 0);
    assert!(!mux.bus_enabled());
    mux.disable_device(ids[0]);
    assert_eq!(mux.enabled(), 0);
}

#[test]
fn scan_probes_every_address() {
    let addrs: Vec<u8> = (1..=127).collect();
    let (mut mux, ids) = mux_with(&addrs);
    let mut scan = ScanClient::new();
    let mut completions = 0;
    let mut found = Vec::new();
    let mut addr = scan.dev_id();
    mux.enable_device(ids[addr as usize - 1]);
    mux.write(ids[addr as usize - 1], vec![0u8; 1], 1);
    loop {
        let error = if addr == 0x40 || addr == 0x1e { I2CError::CommandComplete } else { I2CError::AddressNak };
        let done = mux.command_complete(error).unwrap();
        assert_eq!(done.device, ids[addr as usize - 1]);
        mux.disable_device(done.device);
        completions += 1;
        let step = scan.command_complete(error);
        if let Some(a) = step.found {
            found.push(a);
        }
        match step.next {
            Some(next) => {
                assert_eq!(next, addr + 1);
                addr = next;
                mux.enable_device(ids[addr as usize - 1]);
                mux.write(ids[addr as usize - 1], done.buffer, 1);
            }
            None => break,
        }
    }
    assert_eq!(completions, 127);
    assert_eq!(found, vec![0x1e, 0x40]);
    assert_eq!(mux.enabled(), 0);
    assert!(!mux.bus_enabled());
}

#[test]
fn scan_stops_after_last_address() {
    let mut scan = ScanClient::new();
    for expected in 2..=127u8 {
        assert_eq!(scan.command_complete(I2CError::AddressNak), ScanStep { found: None, next: Some(expected) });
    }
    assert_eq!(scan.command_complete(I2CError::CommandComplete), ScanStep { found: Some(127), next: None });
    assert_eq!(scan.dev_id(), 127);
}

#[test]
fn accelerometer_cycle() {
    let mut accel = AccelClient::new();
    let mut buf = vec![0u8; 8];
    assert_eq!(accel.start(&mut buf), I2CCommand::WriteRead { addr: ACCEL_ADDRESS, write_len: 1, read_len: 1 });
    assert_eq!(buf[0], 0x0d);
    buf[0] = 0xc7;
    assert_eq!(accel.command_complete(&mut buf), (AccelReport::Whoami(0xc7), I2CCommand::Write { addr: ACCEL_ADDRESS, len: 2 }));
    assert_eq!(&buf[0..2], &[0x2a, 1]);
    assert_eq!(
        accel.command_complete(&mut buf),
        (AccelReport::Activated, I2CCommand::WriteRead { addr: ACCEL_ADDRESS, write_len: 1, read_len: 6 })
    );
    assert_eq!(buf[0], 0x01);
    buf[..6].copy_from_slice(&[0x10, 0x00, 0x00, 0x40, 0xff, 0xfc]);
    // x = 0x1000: (1024 * 976 / 1000) / 4 = 249; y = 0x40: (16 * 976 / 1000) / 4 = 3;
    // z = 0xfffc: (16383 * 976 / 1000) / 4 = 3997.
    assert_eq!(
        accel.command_complete(&mut buf),
        (AccelReport::Data { x: 249, y: 3, z: 3997 }, I2CCommand::Write { addr: ACCEL_ADDRESS, len: 2 })
    );
    assert_eq!(&buf[0..2], &[0x2a, 0]);
    assert_eq!(
        accel.command_complete(&mut buf),
        (AccelReport::Deactivated, I2CCommand::WriteRead { addr: ACCEL_ADDRESS, write_len: 1, read_len: 1 })
    );
    assert_eq!(buf[0], 0x0d);
}

#[test]
fn tmp006_reads_device_id() {
    let mut tmp = TMP006Client::new();
    let mut buf = vec![0u8; 4];
    assert_eq!(tmp.start(&mut buf), I2CCommand::Write { addr: TMP006_ADDRESS, len: 3 });
    assert_eq!(&buf[0..3], &[0x02, 0x75, 0x00]);
    assert_eq!(
        tmp.command_complete(&mut buf),
        (TmpReport::Enabled, Some(I2CCommand::WriteRead { addr: TMP006_ADDRESS, write_len: 1, read_len: 2 }))
    );
    assert_eq!(buf[0], 0xff);
    buf[0] = 0x00;
    buf[1] = 0x67;
    assert_eq!(tmp.command_complete(&mut buf), (TmpReport::DeviceId(0x0067), None));
}

#[test]
fn light_sensor_reports_percentage() {
    let mut li = LiClient::new();
    let mut buf = vec![0xffu8; 4];
    assert_eq!(li.start(&mut buf), I2CCommand::Write { addr: LI_ADDRESS, len: 3 });
    assert_eq!(&buf[0..3], &[0, 0b1010_0000, 0]);
    let read = I2CCommand::WriteRead { addr: LI_ADDRESS, write_len: 1, read_len: 2 };
    assert_eq!(li.command_complete(&mut buf), (LiReport::Enabled, read));
    assert_eq!(buf[0], 0);
    buf[0] = 0x00;
    buf[1] = 0x80;
    assert_eq!(li.command_complete(&mut buf), (LiReport::Intensity(50), read));
    assert_eq!(buf[0], 0x02);
    buf[0] = 0xff;
    buf[1] = 0xff;
    assert_eq!(li.command_complete(&mut buf), (LiReport::Intensity(99), read));
}
