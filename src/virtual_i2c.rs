use vstd::prelude::*;
use crate::list::{List, ListIterator};

verus! {

/// How an I2C command ended.
#[derive(Copy, Clone, PartialEq, Eq, Structural, Debug)]
pub enum I2CError {
    AddressNak,
    DataNak,
    ArbitrationLost,
    CommandComplete,
}

/// The operation a device has asked for and not yet had started.
#[derive(Copy, Clone, PartialEq, Eq, Structural, Debug)]
pub enum Op {
    Idle,
    Write(u8),
    Read(u8),
    WriteRead(u8, u8),
}

/// An I2C command handed to the bus controller, with the buffer it owns
/// until the command completes.
pub struct Transfer {
    pub addr: u8,
    pub op: Op,
    pub buffer: Vec<u8>,
}

/// The I2C bus controller: whether it is powered, and the command it is
/// executing, if any. It executes one command at a time.
pub struct I2CController {
    enabled: bool,
    transfer: Option<Transfer>,
}

/// A transfer as address, operation and buffer contents.
pub open spec fn transfer_view(t: Option<Transfer>) -> Option<(u8, Op, Seq<u8>)> {
    match t {
        Some(t) => Some((t.addr, t.op, t.buffer@)),
        None => None,
    }
}

impl I2CController {
    pub closed spec fn enabled_spec(&self) -> bool {
        self.enabled
    }

    /// The command in progress: address, operation and buffer contents.
    pub closed spec fn transfer_spec(&self) -> Option<(u8, Op, Seq<u8>)> {
        transfer_view(self.transfer)
    }

    pub fn new() -> (r: I2CController)
        ensures
            !r.enabled_spec(),
            r.transfer_spec().is_none(),
    {
        I2CController { enabled: false, transfer: None }
    }

    pub fn enable(&mut self)
        ensures
            final(self).enabled_spec(),
            final(self).transfer_spec() == old(self).transfer_spec(),
    {
        self.enabled = true;
    }

    pub fn disable(&mut self)
        ensures
            !final(self).enabled_spec(),
            final(self).transfer_spec() == old(self).transfer_spec(),
    {
        self.enabled = false;
    }

    pub fn is_enabled(&self) -> (r: bool)
        ensures
            r == self.enabled_spec(),
    {
        self.enabled
    }

    pub fn is_busy(&self) -> (r: bool)
        ensures
            r == self.transfer_spec().is_some(),
    {
        self.transfer.is_some()
    }

    /// The address, operation and buffer length of the command in progress.
    pub fn current(&self) -> (r: Option<(u8, Op, usize)>)
        ensures
            r.is_some() == self.transfer_spec().is_some(),
            r.is_some() ==> ({
                let (a, o, b) = self.transfer_spec().unwrap();
                r.unwrap() == (a, o, b.len() as usize)
            }),
    {
        match &self.transfer {
            Some(t) => Some((t.addr, t.op, t.buffer.len())),
            None => None,
        }
    }

    /// Starts executing `op` on the device at `addr` with `buffer`.
    pub fn start(&mut self, addr: u8, op: Op, buffer: Vec<u8>)
        requires
            old(self).transfer_spec().is_none(),
        ensures
            final(self).transfer_spec() == Some((addr, op, buffer@)),
            final(self).enabled_spec() == old(self).enabled_spec(),
    {
        self.transfer = Some(Transfer { addr, op, buffer });
    }

    /// The command in progress has ended: hands its buffer back.
    pub fn finish(&mut self) -> (r: Option<Vec<u8>>)
        ensures
            final(self).transfer_spec().is_none(),
            final(self).enabled_spec() == old(self).enabled_spec(),
            r.is_some() == old(self).transfer_spec().is_some(),
            r.is_some() ==> r.unwrap()@ == old(self).transfer_spec().unwrap().2,
    {
        match self.transfer.take() {
            Some(t) => Some(t.buffer),
            None => None,
        }
    }
}

/// What a device holds: its address, whether it has enabled the bus, the
/// buffer it has handed over (as bytes), its waiting operation and its client.
pub struct DeviceView {
    pub addr: u8,
    pub enabled: bool,
    pub buffer: Option<Seq<u8>>,
    pub op: Op,
    pub client: Option<usize>,
}

/// One client's attachment to a mux: its bus address, whether it has
/// enabled the bus, the buffer and operation it is waiting to have
/// started, and the client to hand completions to.
pub struct I2CDevice {
    addr: u8,
    enabled: bool,
    buffer: Option<Vec<u8>>,
    operation: Op,
    client: Option<usize>,
}

impl I2CDevice {
    pub closed spec fn addr_spec(&self) -> u8 {
        self.addr
    }

    pub closed spec fn enabled_spec(&self) -> bool {
        self.enabled
    }

    pub closed spec fn buffer_spec(&self) -> Option<Seq<u8>> {
        match self.buffer {
            Some(b) => Some(b@),
            None => None,
        }
    }

    pub closed spec fn op_spec(&self) -> Op {
        self.operation
    }

    pub closed spec fn client_spec(&self) -> Option<usize> {
        self.client
    }

    pub open spec fn view(&self) -> DeviceView {
        DeviceView {
            addr: self.addr_spec(),
            enabled: self.enabled_spec(),
            buffer: self.buffer_spec(),
            op: self.op_spec(),
            client: self.client_spec(),
        }
    }

    /// A device at bus address `addr`, idle and without a client.
    pub fn new(addr: u8) -> (r: I2CDevice)
        ensures
            r.addr_spec() == addr,
            !r.enabled_spec(),
            r.buffer_spec().is_none(),
            r.op_spec() == Op::Idle,
            r.client_spec().is_none(),
    {
        I2CDevice { addr, enabled: false, buffer: None, operation: Op::Idle, client: None }
    }

    /// Attaches device `device` of `mux` to the mux's device list and makes
    /// `client` the receiver of its completions.
    pub fn set_client(mux: &mut MuxI2C, device: usize, client: usize)
        requires
            old(mux).wf(),
            device < old(mux).num_devices(),
            !old(mux).list()@.contains(device),
        ensures
            final(mux).wf(),
            final(mux).list()@ == seq![device] + old(mux).list()@,
            final(mux).nodes_spec() == old(mux).nodes_spec().update(
                device as int,
                DeviceView { client: Some(client), ..old(mux).device(device as int) },
            ),
            final(mux).enabled_count() == old(mux).enabled_count(),
            final(mux).inflight_spec() == old(mux).inflight_spec(),
            final(mux).bus() == old(mux).bus(),
    {
        mux.devices.push_head(device);
        let mut node = mux.replace_node(device, I2CDevice::new(0));
        node.client = Some(client);
        let _blank = mux.replace_node(device, node);
        proof {
            assert(mux.nodes_spec() =~= old(mux).nodes_spec().update(device as int, node.view()));
            lemma_replace_keeps_wf(*old(mux), *mux, device as int);
        }
    }
}

/// Number of enabled devices among `nodes`.
pub open spec fn count_enabled(nodes: Seq<DeviceView>) -> nat
    decreases nodes.len(),
{
    if nodes.len() == 0 {
        0
    } else {
        count_enabled(nodes.drop_last()) + if nodes.last().enabled { 1nat } else { 0 }
    }
}

proof fn lemma_count_bound(nodes: Seq<DeviceView>)
    ensures
        count_enabled(nodes) <= nodes.len(),
    decreases nodes.len(),
{
    if nodes.len() > 0 {
        lemma_count_bound(nodes.drop_last());
    }
}

/// Replacing one device changes the count by the change of its flag.
proof fn lemma_count_update(nodes: Seq<DeviceView>, i: int, d: DeviceView)
    requires
        0 <= i < nodes.len(),
    ensures
        count_enabled(nodes.update(i, d)) + (if nodes[i].enabled { 1int } else { 0 }) == count_enabled(nodes)
            + (if d.enabled { 1int } else { 0 }),
    decreases nodes.len(),
{
    if i < nodes.len() - 1 {
        lemma_count_update(nodes.drop_last(), i, d);
        assert(nodes.update(i, d).drop_last() =~= nodes.drop_last().update(i, d));
    } else {
        assert(nodes.update(i, d).drop_last() =~= nodes.drop_last());
    }
}

proof fn lemma_first_pending(order: Seq<usize>, nodes: Seq<DeviceView>)
    ensures
        first_pending(order, nodes) matches Some(d) ==> order.contains(d) && nodes[d as int].op != Op::Idle,
    decreases order.len(),
{
    if order.len() > 0 && nodes[order[0] as int].op == Op::Idle {
        lemma_first_pending(order.drop_first(), nodes);
        if let Some(d) = first_pending(order, nodes) {
            let i = choose|i: int| 0 <= i < order.drop_first().len() && order.drop_first()[i] == d;
            assert(order[i + 1] == d);
        }
    } else if order.len() > 0 {
        assert(order[0] == order[0]);
    }
}

/// The invariant holds again after one device changed, when the count and
/// the bus's power agree with the devices, and the changed device still
/// has a buffer if it waits for an operation.
proof fn lemma_replace_wf(m0: MuxI2C, m1: MuxI2C, d: int)
    requires
        m0.wf(),
        0 <= d < m0.num_devices(),
        m1.nodes_spec() == m0.nodes_spec().update(d, m1.device(d)),
        m1.device(d).op != Op::Idle ==> m1.device(d).buffer.is_some(),
        m1.list().wf(),
        forall|i: int| 0 <= i < m1.list()@.len() ==> #[trigger] m1.list()@[i] < m1.num_devices(),
        m1.enabled_count() == count_enabled(m1.nodes_spec()),
        m1.bus().enabled_spec() == (m1.enabled_count() > 0),
        m1.bus().transfer_spec() == m0.bus().transfer_spec(),
        m1.inflight_spec() == m0.inflight_spec(),
    ensures
        m1.wf(),
{
    assert forall|e: int| 0 <= e < m1.num_devices() && #[trigger] m1.device(e).op != Op::Idle
        implies m1.device(e).buffer.is_some() by {
        if e != d {
            assert(m1.device(e) == m0.device(e));
        }
    }
}

/// Changing one device without changing whether it is enabled, and
/// leaving it a buffer if it waits for an operation, keeps the invariant.
proof fn lemma_replace_keeps_wf(m0: MuxI2C, m1: MuxI2C, d: int)
    requires
        m0.wf(),
        0 <= d < m0.num_devices(),
        m1.nodes_spec() == m0.nodes_spec().update(d, m1.device(d)),
        m1.device(d).enabled == m0.device(d).enabled,
        m1.device(d).op != Op::Idle ==> m1.device(d).buffer.is_some(),
        m1.list().wf(),
        forall|i: int| 0 <= i < m1.list()@.len() ==> #[trigger] m1.list()@[i] < m1.num_devices(),
        m1.enabled_count() == m0.enabled_count(),
        m1.bus() == m0.bus(),
        m1.inflight_spec() == m0.inflight_spec(),
    ensures
        m1.wf(),
{
    lemma_count_update(m0.nodes_spec(), d, m1.device(d));
    lemma_replace_wf(m0, m1, d);
}

/// The invariant holds again when the devices and list are unchanged and
/// the count, power and flight state agree.
proof fn lemma_same_nodes_wf(m0: MuxI2C, m1: MuxI2C)
    requires
        m0.wf(),
        m1.nodes_spec() == m0.nodes_spec(),
        m1.list() == m0.list(),
        m1.enabled_count() == m0.enabled_count(),
        m1.bus().enabled_spec() == m0.bus().enabled_spec(),
        m1.inflight_spec().is_some() == m1.bus().transfer_spec().is_some(),
        m1.inflight_spec().is_some() ==> m1.inflight_spec().unwrap() < m1.num_devices(),
    ensures
        m1.wf(),
{
    assert forall|e: int| 0 <= e < m1.num_devices() && #[trigger] m1.device(e).op != Op::Idle
        implies m1.device(e).buffer.is_some() by {
        assert(m1.device(e) == m0.device(e));
    }
}

/// The first device in `order` with an operation waiting, if any.
pub open spec fn first_pending(order: Seq<usize>, nodes: Seq<DeviceView>) -> Option<usize>
    decreases order.len(),
{
    if order.len() == 0 {
        None
    } else if nodes[order[0] as int].op != Op::Idle {
        Some(order[0])
    } else {
        first_pending(order.drop_first(), nodes)
    }
}

/// A completed command, to be handed to `client` of `device`.
pub struct Completion {
    pub device: usize,
    pub client: Option<usize>,
    pub buffer: Vec<u8>,
    pub error: I2CError,
}

/// A completion as device, client, buffer contents and error.
pub open spec fn completion_view(r: Option<Completion>) -> Option<(usize, Option<usize>, Seq<u8>, I2CError)> {
    match r {
        Some(c) => Some((c.device, c.client, c.buffer@, c.error)),
        None => None,
    }
}

/// Shares one I2C bus among many devices: serves their operations one at
/// a time, head of the device list first, and keeps the bus powered while
/// any device has enabled it.
pub struct MuxI2C {
    i2c: I2CController,
    devices: List,
    nodes: Vec<I2CDevice>,
    enabled: usize,
    inflight: Option<usize>,
}

impl MuxI2C {
    pub closed spec fn bus(&self) -> I2CController {
        self.i2c
    }

    pub closed spec fn list(&self) -> List {
        self.devices
    }

    pub closed spec fn nodes_spec(&self) -> Seq<DeviceView> {
        self.nodes@.map_values(|d: I2CDevice| d.view())
    }

    pub open spec fn device(&self, d: int) -> DeviceView {
        self.nodes_spec()[d]
    }

    pub open spec fn num_devices(&self) -> int {
        self.nodes_spec().len() as int
    }

    pub closed spec fn enabled_count(&self) -> int {
        self.enabled as int
    }

    pub closed spec fn inflight_spec(&self) -> Option<usize> {
        self.inflight
    }

    /// The mux's invariant: the list holds devices of the arena; the
    /// reference count is the number of enabled devices and the bus is
    /// powered exactly when it is positive; exactly when a device is in
    /// flight the controller executes a command; every device waiting for
    /// an operation has handed over its buffer.
    pub open spec fn wf(&self) -> bool {
        &&& self.list().wf()
        &&& forall|i: int| 0 <= i < self.list()@.len() ==> #[trigger] self.list()@[i] < self.num_devices()
        &&& self.enabled_count() == count_enabled(self.nodes_spec())
        &&& self.bus().enabled_spec() == (self.enabled_count() > 0)
        &&& self.inflight_spec().is_some() == self.bus().transfer_spec().is_some()
        &&& (self.inflight_spec().is_some() ==> self.inflight_spec().unwrap() < self.num_devices())
        &&& forall|d: int| 0 <= d < self.num_devices() && #[trigger] self.device(d).op != Op::Idle
            ==> self.device(d).buffer.is_some()
    }

    /// What starting the next operation does, from a mux with nothing in
    /// flight whose devices were `nodes`: the first device of the list with
    /// an operation waiting goes in flight, its buffer and operation move
    /// to the controller; without one, nothing changes.
    pub open spec fn started_next(&self, nodes: Seq<DeviceView>) -> bool {
        match first_pending(self.list()@, nodes) {
            None => {
                &&& self.inflight_spec().is_none()
                &&& self.nodes_spec() == nodes
                &&& self.bus().transfer_spec().is_none()
            },
            Some(d) => {
                &&& self.inflight_spec() == Some(d)
                &&& self.bus().transfer_spec() == Some(
                    (nodes[d as int].addr, nodes[d as int].op, nodes[d as int].buffer.unwrap()),
                )
                &&& self.nodes_spec() == nodes.update(d as int, DeviceView { op: Op::Idle, buffer: None, ..nodes[d as int] })
            },
        }
    }

    /// A mux over `i2c`, with no devices.
    pub fn new(i2c: I2CController) -> (r: MuxI2C)
        requires
            !i2c.enabled_spec(),
            i2c.transfer_spec().is_none(),
        ensures
            r.wf(),
            r.num_devices() == 0,
            r.list()@ == Seq::<usize>::empty(),
            r.enabled_count() == 0,
            r.inflight_spec().is_none(),
    {
        MuxI2C { i2c, devices: List::new(), nodes: Vec::new(), enabled: 0, inflight: None }
    }

    /// Places `device` in the mux's arena and returns its index; it joins
    /// the device list when its client is set.
    pub fn add_device(&mut self, device: I2CDevice) -> (r: usize)
        requires
            old(self).wf(),
            !device.enabled_spec(),
            device.op_spec() == Op::Idle,
        ensures
            final(self).wf(),
            r == old(self).num_devices(),
            final(self).nodes_spec() == old(self).nodes_spec().push(device.view()),
            final(self).list() == old(self).list(),
            final(self).enabled_count() == old(self).enabled_count(),
            final(self).inflight_spec() == old(self).inflight_spec(),
            final(self).bus() == old(self).bus(),
    {
        let r = self.nodes.len();
        self.nodes.push(device);
        proof {
            assert(self.nodes_spec() =~= old(self).nodes_spec().push(device.view()));
            assert(self.nodes_spec().drop_last() =~= old(self).nodes_spec());
            assert forall|d: int| 0 <= d < self.num_devices() && #[trigger] self.device(d).op != Op::Idle
                implies self.device(d).buffer.is_some() by {
                if d < r {
                    assert(self.device(d) == old(self).device(d));
                }
            }
        }
        r
    }

    /// Puts `node` in place of device `d`: the mux's view changes exactly
    /// there, and its invariant holds again if `node` keeps the count of
    /// enabled devices and has a buffer for any waiting operation.
    fn replace_node(&mut self, d: usize, node: I2CDevice) -> (r: I2CDevice)
        requires
            d < old(self).nodes@.len(),
        ensures
            r == old(self).nodes@[d as int],
            final(self).nodes@.len() == old(self).nodes@.len(),
            final(self).nodes_spec() == old(self).nodes_spec().update(d as int, node.view()),
            final(self).i2c == old(self).i2c,
            final(self).devices == old(self).devices,
            final(self).enabled == old(self).enabled,
            final(self).inflight == old(self).inflight,
    {
        let mut r = node;
        self.nodes.set_and_swap(d, &mut r);
        assert(self.nodes_spec() =~= old(self).nodes_spec().update(d as int, node.view()));
        r
    }


    /// Starts the next waiting operation unless one is in flight: the
    /// first device of the list with an operation waiting hands its buffer
    /// and operation to the controller and goes in flight.
    fn do_next_op(&mut self)
        requires
            old(self).wf(),
        ensures
            final(self).wf(),
            old(self).inflight_spec().is_some() ==> *final(self) == *old(self),
            old(self).inflight_spec().is_none() ==> final(self).started_next(old(self).nodes_spec()),
            final(self).list() == old(self).list(),
            final(self).enabled_count() == old(self).enabled_count(),
            final(self).bus().enabled_spec() == old(self).bus().enabled_spec(),
            final(self).num_devices() == old(self).num_devices(),
    {
        if self.inflight.is_some() {
            return;
        }
        let ghost order = self.devices@;
        let ghost nodes = self.nodes_spec();
        let mut it: ListIterator = self.devices.iter();
        let mut found: Option<usize> = None;
        assert(order.subrange(0, order.len() as int) =~= order);
        loop
            invariant_except_break
                found.is_none(),
                it.at(&self.devices, it.visited()),
                first_pending(order, nodes) == first_pending(order.subrange(it.visited() as int, order.len() as int), nodes),
            invariant
                self.wf(),
                *self == *old(self),
                order == self.devices@,
                nodes == self.nodes_spec(),
            ensures
                found == first_pending(order, nodes),
            decreases order.len() - it.visited(),
        {
            let ghost k = it.visited();
            match it.next(&self.devices) {
                Some(node) => {
                    assert(order.subrange(k as int, order.len() as int).drop_first() =~= order.subrange(k + 1 as int, order.len() as int));
                    assert(self.device(node as int) == self.nodes@[node as int].view());
                    if self.nodes[node].operation != Op::Idle {
                        found = Some(node);
                        break;
                    }
                },
                None => {
                    assert(order.subrange(k as int, order.len() as int) =~= Seq::<usize>::empty());
                    break;
                },
            }
        }
        proof {
            lemma_first_pending(order, nodes);
        }
        match found {
            Some(d) => {
                let mut node = self.replace_node(d, I2CDevice::new(0));
                let op = node.operation;
                let addr = node.addr;
                match node.buffer.take() {
                    Some(buf) => {
                        node.operation = Op::Idle;
                        let _blank = self.replace_node(d, node);
                        self.i2c.start(addr, op, buf);
                        self.inflight = Some(d);
                        proof {
                            assert(self.nodes_spec() =~= nodes.update(
                                d as int,
                                DeviceView { op: Op::Idle, buffer: None, ..nodes[d as int] },
                            ));
                            lemma_count_update(nodes, d as int, self.device(d as int));
                            assert forall|e: int| 0 <= e < self.num_devices() && #[trigger] self.device(e).op != Op::Idle
                                implies self.device(e).buffer.is_some() by {
                                if e != d {
                                    assert(self.device(e) == nodes[e]);
                                    assert(old(self).device(e) == nodes[e]);
                                }
                            }
                        }
                    },
                    None => {
                        assert(old(self).device(d as int) == nodes[d as int]);
                        assert(old(self).device(d as int).op != Op::Idle);
                        let _blank = self.replace_node(d, node);
                        assert(false);
                    },
                }
            },
            None => {},
        }
    }

    /// `new` is `old` after device `d` asked for `op` on `buffer`: the
    /// device holds both, and unless an operation is in flight the next
    /// operation was started.
    pub open spec fn requested(old: &MuxI2C, d: int, buffer: Seq<u8>, op: Op, new: &MuxI2C) -> bool {
        let nodes = old.nodes_spec().update(d, DeviceView { buffer: Some(buffer), op, ..old.device(d) });
        &&& new.list() == old.list()
        &&& new.enabled_count() == old.enabled_count()
        &&& new.bus().enabled_spec() == old.bus().enabled_spec()
        &&& if old.inflight_spec().is_some() {
            &&& new.nodes_spec() == nodes
            &&& new.inflight_spec() == old.inflight_spec()
            &&& new.bus() == old.bus()
        } else {
            new.started_next(nodes)
        }
    }

    /// `new` is `old` after the controller finished the command in flight
    /// with `error`: the buffer goes back, with the device it came from and
    /// that device's client, and the next operation is started.
    pub open spec fn completed(old: &MuxI2C, error: I2CError, new: &MuxI2C, r: Option<(usize, Option<usize>, Seq<u8>, I2CError)>) -> bool {
        &&& r.is_some() == old.inflight_spec().is_some()
        &&& (r matches Some((d, client, buffer, e)) ==> {
            &&& d == old.inflight_spec().unwrap()
            &&& client == old.device(d as int).client
            &&& buffer == old.bus().transfer_spec().unwrap().2
            &&& e == error
        })
        &&& new.started_next(old.nodes_spec())
        &&& new.list() == old.list()
        &&& new.enabled_count() == old.enabled_count()
        &&& new.bus().enabled_spec() == old.bus().enabled_spec()
    }

    fn request(&mut self, device: usize, data: Vec<u8>, op: Op)
        requires
            old(self).wf(),
            device < old(self).num_devices(),
            op != Op::Idle,
        ensures
            final(self).wf(),
            MuxI2C::requested(old(self), device as int, data@, op, final(self)),
    {
        let ghost nodes = self.nodes_spec().update(
            device as int,
            DeviceView { buffer: Some(data@), op, ..self.device(device as int) },
        );
        let mut node = self.replace_node(device, I2CDevice::new(0));
        node.buffer = Some(data);
        node.operation = op;
        let _blank = self.replace_node(device, node);
        proof {
            assert(self.nodes_spec() =~= nodes);
            lemma_replace_keeps_wf(*old(self), *self, device as int);
        }
        self.do_next_op();
    }

    /// Device `device` asks to write `len` bytes of `data`.
    pub fn write(&mut self, device: usize, data: Vec<u8>, len: u8)
        requires
            old(self).wf(),
            device < old(self).num_devices(),
        ensures
            final(self).wf(),
            MuxI2C::requested(old(self), device as int, data@, Op::Write(len), final(self)),
    {
        self.request(device, data, Op::Write(len));
    }

    /// Device `device` asks to read `len` bytes into `buffer`.
    pub fn read(&mut self, device: usize, buffer: Vec<u8>, len: u8)
        requires
            old(self).wf(),
            device < old(self).num_devices(),
        ensures
            final(self).wf(),
            MuxI2C::requested(old(self), device as int, buffer@, Op::Read(len), final(self)),
    {
        self.request(device, buffer, Op::Read(len));
    }

    /// Device `device` asks to write `write_len` bytes of `data`, then read
    /// `read_len` bytes into it.
    pub fn write_read(&mut self, device: usize, data: Vec<u8>, write_len: u8, read_len: u8)
        requires
            old(self).wf(),
            device < old(self).num_devices(),
        ensures
            final(self).wf(),
            MuxI2C::requested(old(self), device as int, data@, Op::WriteRead(write_len, read_len), final(self)),
    {
        self.request(device, data, Op::WriteRead(write_len, read_len));
    }

    /// The controller finished the command in flight with `error`. Returns
    /// the buffer to the device it came from (for that device's client),
    /// then starts the next waiting operation.
    pub fn command_complete(&mut self, error: I2CError) -> (r: Option<Completion>)
        requires
            old(self).wf(),
        ensures
            final(self).wf(),
            MuxI2C::completed(old(self), error, final(self), completion_view(r)),
    {
        let r = match self.inflight {
            Some(d) => {
                let buffer = match self.i2c.finish() {
                    Some(b) => b,
                    None => {
                        assert(false);
                        Vec::new()
                    },
                };
                self.inflight = None;
                proof {
                    lemma_same_nodes_wf(*old(self), *self);
                }
                Some(Completion { device: d, client: self.nodes[d].client, buffer, error })
            },
            None => None,
        };
        proof {
            assert(self.nodes_spec() == old(self).nodes_spec());
            if r.is_some() {
                assert(self.device(r.unwrap().device as int) == self.nodes@[r.unwrap().device as int].view());
            }
        }
        self.do_next_op();
        r
    }

    /// `new` is `old` after device `d` enabled the bus: the device is
    /// enabled, and the reference count rose by one if it was not.
    pub open spec fn device_enabled(old: &MuxI2C, d: int, new: &MuxI2C) -> bool {
        &&& new.nodes_spec() == old.nodes_spec().update(d, DeviceView { enabled: true, ..old.device(d) })
        &&& new.enabled_count() == old.enabled_count() + if old.device(d).enabled { 0int } else { 1 }
        &&& new.list() == old.list()
        &&& new.inflight_spec() == old.inflight_spec()
        &&& new.bus().transfer_spec() == old.bus().transfer_spec()
    }

    /// `new` is `old` after device `d` disabled the bus: the device is
    /// disabled, and the reference count fell by one if it was enabled.
    pub open spec fn device_disabled(old: &MuxI2C, d: int, new: &MuxI2C) -> bool {
        &&& new.nodes_spec() == old.nodes_spec().update(d, DeviceView { enabled: false, ..old.device(d) })
        &&& new.enabled_count() == old.enabled_count() - if old.device(d).enabled { 1int } else { 0 }
        &&& new.list() == old.list()
        &&& new.inflight_spec() == old.inflight_spec()
        &&& new.bus().transfer_spec() == old.bus().transfer_spec()
    }

    /// Counts one more user of the bus, powering it on for the first.
    fn enable(&mut self)
        requires
            old(self).enabled < usize::MAX,
            old(self).i2c.enabled_spec() == (old(self).enabled > 0),
        ensures
            final(self).enabled == old(self).enabled + 1,
            final(self).i2c.enabled_spec(),
            final(self).i2c.transfer_spec() == old(self).i2c.transfer_spec(),
            final(self).nodes == old(self).nodes,
            final(self).devices == old(self).devices,
            final(self).inflight == old(self).inflight,
    {
        let enabled = self.enabled;
        self.enabled = enabled + 1;
        if enabled == 0 {
            self.i2c.enable();
        }
    }

    /// Counts one user of the bus less, powering it off after the last.
    fn disable(&mut self)
        requires
            old(self).enabled > 0,
            old(self).i2c.enabled_spec(),
        ensures
            final(self).enabled == old(self).enabled - 1,
            final(self).i2c.enabled_spec() == (final(self).enabled > 0),
            final(self).i2c.transfer_spec() == old(self).i2c.transfer_spec(),
            final(self).nodes == old(self).nodes,
            final(self).devices == old(self).devices,
            final(self).inflight == old(self).inflight,
    {
        let enabled = self.enabled;
        self.enabled = enabled - 1;
        if enabled == 1 {
            self.i2c.disable();
        }
    }

    /// Device `device` needs the bus: counts it once, powering the bus on
    /// when it is the first.
    pub fn enable_device(&mut self, device: usize)
        requires
            old(self).wf(),
            device < old(self).num_devices(),
        ensures
            final(self).wf(),
            MuxI2C::device_enabled(old(self), device as int, final(self)),
    {
        if self.nodes[device].enabled {
            proof {
                assert(self.nodes_spec() =~= old(self).nodes_spec().update(
                    device as int,
                    DeviceView { enabled: true, ..old(self).device(device as int) },
                ));
            }
            return;
        }
        let ghost nodes0 = self.nodes_spec();
        let mut node = self.replace_node(device, I2CDevice::new(0));
        node.enabled = true;
        let _blank = self.replace_node(device, node);
        proof {
            assert(self.nodes_spec() =~= nodes0.update(device as int, node.view()));
            lemma_count_update(nodes0, device as int, node.view());
            lemma_count_bound(self.nodes_spec());
        }
        let _n = self.nodes.len();
        self.enable();
        proof {
            lemma_replace_wf(*old(self), *self, device as int);
        }
    }

    /// Device `device` no longer needs the bus: uncounts it, powering the
    /// bus off when it was the last.
    pub fn disable_device(&mut self, device: usize)
        requires
            old(self).wf(),
            device < old(self).num_devices(),
        ensures
            final(self).wf(),
            MuxI2C::device_disabled(old(self), device as int, final(self)),
    {
        if !self.nodes[device].enabled {
            proof {
                assert(self.nodes_spec() =~= old(self).nodes_spec().update(
                    device as int,
                    DeviceView { enabled: false, ..old(self).device(device as int) },
                ));
            }
            return;
        }
        let ghost nodes0 = self.nodes_spec();
        let mut node = self.replace_node(device, I2CDevice::new(0));
        node.enabled = false;
        let _blank = self.replace_node(device, node);
        proof {
            assert(self.nodes_spec() =~= nodes0.update(device as int, node.view()));
            lemma_count_update(nodes0, device as int, node.view());
        }
        self.disable();
        proof {
            lemma_replace_wf(*old(self), *self, device as int);
        }
    }

    /// The address, operation and buffer length of the command on the bus.
    pub fn bus_current(&self) -> (r: Option<(u8, Op, usize)>)
        ensures
            r.is_some() == self.bus().transfer_spec().is_some(),
            r.is_some() ==> ({
                let (a, o, b) = self.bus().transfer_spec().unwrap();
                r.unwrap() == (a, o, b.len() as usize)
            }),
    {
        self.i2c.current()
    }

    pub fn bus_enabled(&self) -> (r: bool)
        ensures
            r == self.bus().enabled_spec(),
    {
        self.i2c.is_enabled()
    }

    /// How many devices have the bus enabled.
    pub fn enabled(&self) -> (r: usize)
        ensures
            r == self.enabled_count(),
    {
        self.enabled
    }

    /// The device whose command is on the bus.
    pub fn inflight(&self) -> (r: Option<usize>)
        ensures
            r == self.inflight_spec(),
    {
        self.inflight
    }
}

/// In a list where `d` is the only device with an operation waiting, it
/// is the one served.
proof fn lemma_first_pending_only(order: Seq<usize>, nodes: Seq<DeviceView>, d: usize)
    requires
        order.contains(d),
        nodes[d as int].op != Op::Idle,
        forall|i: int| 0 <= i < order.len() && order[i] != d ==> #[trigger] nodes[order[i] as int].op == Op::Idle,
    ensures
        first_pending(order, nodes) == Some(d),
    decreases order.len(),
{
    if order[0] != d {
        assert(nodes[order[0] as int].op == Op::Idle);
        let i = choose|i: int| 0 <= i < order.len() && order[i] == d;
        assert(order.drop_first()[i - 1] == d);
        assert forall|j: int| 0 <= j < order.drop_first().len() && order.drop_first()[j] != d
            implies #[trigger] nodes[order.drop_first()[j] as int].op == Op::Idle by {
            assert(order.drop_first()[j] == order[j + 1]);
        }
        lemma_first_pending_only(order.drop_first(), nodes, d);
    }
}

/// With no device waiting, nothing is served.
proof fn lemma_first_pending_none(order: Seq<usize>, nodes: Seq<DeviceView>)
    requires
        forall|i: int| 0 <= i < order.len() ==> #[trigger] nodes[order[i] as int].op == Op::Idle,
    ensures
        first_pending(order, nodes).is_none(),
    decreases order.len(),
{
    if order.len() > 0 {
        assert(nodes[order[0] as int].op == Op::Idle);
        assert forall|j: int| 0 <= j < order.drop_first().len()
            implies #[trigger] nodes[order.drop_first()[j] as int].op == Op::Idle by {
            assert(order.drop_first()[j] == order[j + 1]);
        }
        lemma_first_pending_none(order.drop_first(), nodes);
    }
}

/// A buffer that a listed device hands to a quiescent mux (nothing in
/// flight, no device holding a buffer) comes back exactly once: the
/// completion returns it, unchanged, to that device and its client, and
/// afterwards neither the controller nor any device holds a buffer.
pub proof fn lemma_buffer_returned(
    m0: MuxI2C,
    d: usize,
    buffer: Seq<u8>,
    op: Op,
    m1: MuxI2C,
    error: I2CError,
    m2: MuxI2C,
    r: Option<(usize, Option<usize>, Seq<u8>, I2CError)>,
)
    requires
        m0.wf(),
        d < m0.num_devices(),
        m0.list()@.contains(d),
        m0.inflight_spec().is_none(),
        forall|e: int| 0 <= e < m0.num_devices() ==> (#[trigger] m0.device(e)).op == Op::Idle && m0.device(e).buffer.is_none(),
        op != Op::Idle,
        MuxI2C::requested(&m0, d as int, buffer, op, &m1),
        MuxI2C::completed(&m1, error, &m2, r),
    ensures
        r == Some((d, m0.device(d as int).client, buffer, error)),
        m2.inflight_spec().is_none(),
        m2.bus().transfer_spec().is_none(),
        forall|e: int| 0 <= e < m2.num_devices() ==> (#[trigger] m2.device(e)).buffer.is_none(),
{
    let nodes1 = m0.nodes_spec().update(d as int, DeviceView { buffer: Some(buffer), op, ..m0.device(d as int) });
    assert forall|i: int| 0 <= i < m0.list()@.len() && m0.list()@[i] != d
        implies #[trigger] nodes1[m0.list()@[i] as int].op == Op::Idle by {
        assert(m0.list()@[i] < m0.num_devices());
        assert(m0.device(m0.list()@[i] as int).op == Op::Idle);
    }
    lemma_first_pending_only(m0.list()@, nodes1, d);
    let nodes2 = nodes1.update(d as int, DeviceView { op: Op::Idle, buffer: None, ..nodes1[d as int] });
    assert(m1.nodes_spec() == nodes2);
    assert forall|i: int| 0 <= i < m1.list()@.len() implies #[trigger] nodes2[m1.list()@[i] as int].op == Op::Idle by {
        if m1.list()@[i] != d {
            assert(m0.list()@[i] < m0.num_devices());
            assert(m0.device(m0.list()@[i] as int).op == Op::Idle);
        }
    }
    lemma_first_pending_none(m1.list()@, m1.nodes_spec());
    assert forall|e: int| 0 <= e < m2.num_devices() implies (#[trigger] m2.device(e)).buffer.is_none() by {
        if e != d {
            assert(m0.device(e).buffer.is_none());
        }
    }
}

/// Enabling the bus from a device that had not enabled it, then disabling
/// it from the same device, leaves the devices, the reference count and
/// the bus's power as they were.
pub proof fn lemma_enable_disable_balanced(m0: MuxI2C, d: int, m1: MuxI2C, m2: MuxI2C)
    requires
        m0.wf(),
        m1.wf(),
        m2.wf(),
        0 <= d < m0.num_devices(),
        !m0.device(d).enabled,
        MuxI2C::device_enabled(&m0, d, &m1),
        MuxI2C::device_disabled(&m1, d, &m2),
    ensures
        m2.nodes_spec() == m0.nodes_spec(),
        m2.enabled_count() == m0.enabled_count(),
        m2.bus().enabled_spec() == m0.bus().enabled_spec(),
{
    assert(m2.nodes_spec() =~= m0.nodes_spec());
}

/// At most one operation is ever in flight, and only its completion ends
/// it: exactly when a device is in flight the controller executes one
/// command; requests and enabling or disabling the bus leave a command in
/// flight where it is; a completion empties the flight slot before the
/// next waiting operation (if any) takes it.
pub proof fn lemma_one_in_flight(m0: MuxI2C, d: int, buffer: Seq<u8>, op: Op, m1: MuxI2C)
    requires
        m0.wf(),
        m1.wf(),
    ensures
        m1.inflight_spec().is_some() == m1.bus().transfer_spec().is_some(),
        m0.inflight_spec().is_some() && MuxI2C::requested(&m0, d, buffer, op, &m1)
            ==> m1.inflight_spec() == m0.inflight_spec() && m1.bus() == m0.bus(),
        m0.inflight_spec().is_some() && (MuxI2C::device_enabled(&m0, d, &m1) || MuxI2C::device_disabled(&m0, d, &m1))
            ==> m1.inflight_spec() == m0.inflight_spec() && m1.bus().transfer_spec() == m0.bus().transfer_spec(),
        forall|error: I2CError, r: Option<(usize, Option<usize>, Seq<u8>, I2CError)>|
            #[trigger] MuxI2C::completed(&m0, error, &m1, r) ==> (m1.inflight_spec()
                == first_pending(m0.list()@, m0.nodes_spec())),
{
}

} // verus!
