use vstd::prelude::*;

verus! {

/// Largest message the server accepts from a peer: 10 MiB.
pub const MAX_GRPC_RECV_MSG_LEN: i32 = 10485760;

/// Largest message the server sends; -1 leaves it unbounded.
pub const UNLIMITED_MESSAGE_LEN: i32 = -1;

/// How many coprocessor tasks the coprocessor worker takes at a time.
pub const DEFAULT_COPROCESSOR_BATCH: usize = 256;

/// The server's settings.
#[derive(Clone, Debug, PartialEq, Eq)]
pub struct Config {
    /// Listening address, `host:port`; port 0 picks an ephemeral port.
    pub addr: String,
    /// Completion-queue threads of the RPC environment.
    pub grpc_concurrency: usize,
    /// Concurrent streams per HTTP/2 connection.
    pub grpc_concurrent_stream: i32,
    /// Flow-control window of each HTTP/2 stream, in bytes.
    pub grpc_stream_initial_window_size: u64,
    /// Deepest nesting accepted when decoding a coprocessor plan.
    pub end_point_recursion_limit: u32,
    /// Buffer size of a streaming coprocessor response.
    pub end_point_stream_channel_size: usize,
}

/// Arguments of the RPC channel for inbound peer traffic.
#[derive(Clone, Copy, Debug, PartialEq, Eq, Structural)]
pub struct ChannelArgs {
    pub stream_initial_window_size: i32,
    pub max_concurrent_stream: i32,
    pub max_receive_message_len: i32,
    pub max_send_message_len: i32,
}

/// Builds the channel arguments from the settings. The RPC layer holds the
/// window size as an `i32`.
pub fn channel_args(cfg: &Config) -> (r: ChannelArgs)
    requires
        cfg.grpc_stream_initial_window_size <= i32::MAX,
    ensures
        r.stream_initial_window_size == cfg.grpc_stream_initial_window_size,
        r.max_concurrent_stream == cfg.grpc_concurrent_stream,
        r.max_receive_message_len == 10 * 1024 * 1024,
        r.max_send_message_len == -1,
{
    ChannelArgs {
        stream_initial_window_size: cfg.grpc_stream_initial_window_size as i32,
        max_concurrent_stream: cfg.grpc_concurrent_stream,
        max_receive_message_len: MAX_GRPC_RECV_MSG_LEN,
        max_send_message_len: UNLIMITED_MESSAGE_LEN,
    }
}

/// RPC services the server can expose.
#[derive(Clone, Copy, Debug, PartialEq, Eq, Structural)]
pub enum Service {
    Kv,
    Debug,
    ImportSst,
}

pub open spec fn services_spec(has_debug: bool, has_import: bool) -> Seq<Service> {
    seq![Service::Kv] + (if has_debug {
        seq![Service::Debug]
    } else {
        Seq::empty()
    }) + (if has_import {
        seq![Service::ImportSst]
    } else {
        Seq::empty()
    })
}

/// The services to register: the kv service always, the debug service when
/// debug engines are given, the import service when one is given.
pub fn services(has_debug: bool, has_import: bool) -> (r: Vec<Service>)
    ensures
        r@ == services_spec(has_debug, has_import),
{
    let mut r = Vec::new();
    r.push(Service::Kv);
    if has_debug {
        r.push(Service::Debug);
    }
    if has_import {
        r.push(Service::ImportSst);
    }
    assert(r@ =~= services_spec(has_debug, has_import));
    r
}

/// Parts of the server that run on their own.
#[derive(Clone, Copy, Debug, PartialEq, Eq, Structural)]
pub enum Component {
    EndPointWorker,
    SnapWorker,
    Storage,
    GrpcServer,
}

/// One lifecycle step to perform on a component.
#[derive(Clone, Copy, Debug, PartialEq, Eq, Structural)]
pub enum Step {
    Start(Component),
    Stop(Component),
}

pub open spec fn step_if(cond: bool, s: Step) -> Seq<Step> {
    if cond {
        seq![s]
    } else {
        Seq::empty()
    }
}

/// Starting brings up, in order, the coprocessor worker, the snapshot worker
/// and the RPC server, each one that is not running yet.
pub open spec fn start_steps(running: Set<Component>) -> Seq<Step> {
    step_if(!running.contains(Component::EndPointWorker), Step::Start(Component::EndPointWorker))
        + step_if(!running.contains(Component::SnapWorker), Step::Start(Component::SnapWorker))
        + step_if(!running.contains(Component::GrpcServer), Step::Start(Component::GrpcServer))
}

/// Stopping takes down, in order, the coprocessor worker, the snapshot
/// worker, the storage and the RPC server, each one that is running.
pub open spec fn stop_steps(running: Set<Component>) -> Seq<Step> {
    step_if(running.contains(Component::EndPointWorker), Step::Stop(Component::EndPointWorker))
        + step_if(running.contains(Component::SnapWorker), Step::Stop(Component::SnapWorker))
        + step_if(running.contains(Component::Storage), Step::Stop(Component::Storage))
        + step_if(running.contains(Component::GrpcServer), Step::Stop(Component::GrpcServer))
}

/// The lifecycle of the server's components and the address it listens on.
pub struct Server {
    end_point_running: bool,
    snap_running: bool,
    storage_running: bool,
    grpc_running: bool,
    local_addr: String,
}

impl Server {
    /// The components that are running.
    pub closed spec fn running(&self) -> Set<Component> {
        Set::new(
            |c: Component|
                match c {
                    Component::EndPointWorker => self.end_point_running,
                    Component::SnapWorker => self.snap_running,
                    Component::Storage => self.storage_running,
                    Component::GrpcServer => self.grpc_running,
                },
        )
    }

    pub closed spec fn local_addr(&self) -> String {
        self.local_addr
    }

    /// A server around a started storage, listening on `local_addr`, the
    /// address that the bound RPC server reports.
    pub fn new(local_addr: String) -> (s: Server)
        ensures
            s.running() == set![Component::Storage],
            s.local_addr() == local_addr,
    {
        let s = Server {
            end_point_running: false,
            snap_running: false,
            storage_running: true,
            grpc_running: false,
            local_addr,
        };
        assert(s.running() =~= set![Component::Storage]);
        s
    }

    pub fn start(&mut self) -> (r: Vec<Step>)
        ensures
            r@ == start_steps(old(self).running()),
            final(self).running() == old(self).running().insert(Component::EndPointWorker).insert(
                Component::SnapWorker,
            ).insert(Component::GrpcServer),
            final(self).local_addr() == old(self).local_addr(),
    {
        let mut r = Vec::new();
        if !self.end_point_running {
            r.push(Step::Start(Component::EndPointWorker));
        }
        if !self.snap_running {
            r.push(Step::Start(Component::SnapWorker));
        }
        if !self.grpc_running {
            r.push(Step::Start(Component::GrpcServer));
        }
        proof {
            let old_running = old(self).running();
            assert(old_running.contains(Component::EndPointWorker) == self.end_point_running);
            assert(old_running.contains(Component::SnapWorker) == self.snap_running);
            assert(old_running.contains(Component::GrpcServer) == self.grpc_running);
            assert(r@ =~= start_steps(old_running));
        }
        self.end_point_running = true;
        self.snap_running = true;
        self.grpc_running = true;
        assert(self.running() =~= old(self).running().insert(Component::EndPointWorker).insert(
            Component::SnapWorker,
        ).insert(Component::GrpcServer));
        r
    }

    pub fn stop(&mut self) -> (r: Vec<Step>)
        ensures
            r@ == stop_steps(old(self).running()),
            final(self).running() == Set::<Component>::empty(),
            final(self).local_addr() == old(self).local_addr(),
    {
        let mut r = Vec::new();
        if self.end_point_running {
            r.push(Step::Stop(Component::EndPointWorker));
        }
        if self.snap_running {
            r.push(Step::Stop(Component::SnapWorker));
        }
        if self.storage_running {
            r.push(Step::Stop(Component::Storage));
        }
        if self.grpc_running {
            r.push(Step::Stop(Component::GrpcServer));
        }
        proof {
            let old_running = old(self).running();
            assert(old_running.contains(Component::EndPointWorker) == self.end_point_running);
            assert(old_running.contains(Component::SnapWorker) == self.snap_running);
            assert(old_running.contains(Component::Storage) == self.storage_running);
            assert(old_running.contains(Component::GrpcServer) == self.grpc_running);
            assert(r@ =~= stop_steps(old_running));
        }
        self.end_point_running = false;
        self.snap_running = false;
        self.storage_running = false;
        self.grpc_running = false;
        assert(self.running() =~= Set::<Component>::empty());
        r
    }

    /// The address the server listens on; with a configured port 0 it holds
    /// the port actually bound.
    pub fn listening_addr(&self) -> (r: String)
        ensures
            r == self.local_addr(),
    {
        self.local_addr.clone()
    }
}

/// Stopping is total and idempotent: every running component gets a stop
/// step, none runs afterwards, and a second stop has nothing left to do.
pub proof fn lemma_stop_total_and_idempotent(running: Set<Component>, c: Component)
    ensures
        running.contains(c) ==> stop_steps(running).contains(Step::Stop(c)),
        stop_steps(Set::<Component>::empty()) == Seq::<Step>::empty(),
{
    let s1 = step_if(running.contains(Component::EndPointWorker), Step::Stop(Component::EndPointWorker));
    let s2 = step_if(running.contains(Component::SnapWorker), Step::Stop(Component::SnapWorker));
    let s3 = step_if(running.contains(Component::Storage), Step::Stop(Component::Storage));
    let s4 = step_if(running.contains(Component::GrpcServer), Step::Stop(Component::GrpcServer));
    let all = s1 + s2 + s3 + s4;
    if running.contains(c) {
        match c {
            Component::EndPointWorker => assert(all[0] == Step::Stop(c)),
            Component::SnapWorker => assert(all[s1.len() as int] == Step::Stop(c)),
            Component::Storage => assert(all[(s1.len() + s2.len()) as int] == Step::Stop(c)),
            Component::GrpcServer => assert(
                all[(s1.len() + s2.len() + s3.len()) as int] == Step::Stop(c)
            ),
        }
    }
    assert(stop_steps(Set::<Component>::empty()) =~= Seq::<Step>::empty());
}

} // verus!
