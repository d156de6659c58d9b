use it9910hd::command::Command;
use it9910hd::fs::{IT9910FS, OpenReply, ReadStep};
use it9910hd::it9910hd_driver::Event;
use it9910hd::usb_wrapper::{Endpoint, TransferKind, UsbWrapper};
use it9910hd::worker::{Report, Task, Worker};
use std::collections::VecDeque;

/// A grabber whose data endpoint gives `chunks`, one per read, and whose PC
/// grabber runs from the first poll on and has stopped at the first poll
/// after it was switched off.
struct MockGrabber {
    chunks: VecDeque<Vec<u8>>,
    running: bool,
    sent: Vec<Command>,
}

impl MockGrabber {
    fn exchange(&mut self, command: Command) -> Vec<u8> {
        self.sent.push(command);
        match command {
            Command::SetPcGrabber { start } => {
                self.running = start != 0;
                vec![0u8; 16]
            }
            Command::GetPcGrabber => {
                let mut received = vec![0u8; 28];
                received[24] = self.running as u8;
                received
            }
            Command::GetHwGrabber => {
                let mut received = vec![0u8; 158];
                received[31] = 0x37;
                received
            }
            _ => vec![0u8; 16],
        }
    }
}

/// Runs the worker until it has put a packet into `queue` or has ended.
/// Termination is asked for when the device has no chunk left.
fn produce(
    worker: &mut Worker,
    task: Task,
    grabber: &mut MockGrabber,
    queue: &mut VecDeque<Vec<u8>>,
) -> Option<Task> {
    let mut task = task;
    loop {
        task = match task {
            Task::Exchange { command, .. } => {
                let received = grabber.exchange(command);
                worker.step(Report::Driver(Event::Response(received)))
            }
            Task::Sleep => worker.step(Report::Driver(Event::Slept)),
            Task::ReadChunk => match grabber.chunks.pop_front() {
                Some(chunk) => worker.step(Report::Chunk(chunk)),
                None => worker.step(Report::Chunk(Vec::new())),
            },
            Task::Publish(packet) => {
                queue.push_back(packet);
                return Some(worker.step(Report::Published));
            }
            Task::CheckTermination => {
                worker.step(Report::Termination(grabber.chunks.is_empty()))
            }
            Task::Finish => return None,
            Task::Abort(error) => panic!("worker gave up: {:?}", error),
        };
    }
}

#[test]
fn the_file_holds_what_the_data_endpoint_gave() {
    let lens = [16384usize, 16384, 16384, 700, 16384, 0, 16384, 16384, 16384, 16384, 2692];
    let total: usize = lens.iter().sum();
    let stream: Vec<u8> = (0..total).map(|i| (i * 31 % 256) as u8).collect();
    let mut chunks = VecDeque::new();
    let mut at = 0;
    for len in lens {
        chunks.push_back(stream[at..at + len].to_vec());
        at += len;
    }
    assert_eq!(at, 134_464);
    let mut grabber = MockGrabber { chunks, running: false, sent: Vec::new() };

    let endpoints = vec![
        Endpoint { address: 0x81, kind: TransferKind::Bulk },
        Endpoint { address: 0x02, kind: TransferKind::Bulk },
        Endpoint { address: 0x83, kind: TransferKind::Bulk },
    ];
    let session = UsbWrapper::new(&endpoints, 0, false).unwrap();
    let mut fs = IT9910FS::new(1280, 720, 30, 8000, 2, 4, 0, 100, 0, 100).unwrap();
    let fh = match fs.open(2) {
        OpenReply::Opened(fh) => fh,
        other => panic!("unexpected reply: {:?}", other),
    };
    let mut worker = Worker::new(session, fs.config());
    let mut queue: VecDeque<Vec<u8>> = VecDeque::new();
    let mut task = Some(worker.begin());

    let mut returned: Vec<u8> = Vec::new();
    let mut offset = 0i64;
    while returned.len() < stream.len() {
        let size = 4096.min(stream.len() - returned.len()) as u32;
        let mut step = fs.read(2, fh, offset, size);
        let data = loop {
            step = match step {
                ReadStep::Data(data) => break data,
                ReadStep::Error(error) => panic!("read failed: {:?}", error),
                ReadStep::NeedPacket => {
                    if queue.is_empty() {
                        task = produce(&mut worker, task.take().unwrap(), &mut grabber, &mut queue);
                    }
                    fs.packet_received(queue.pop_front().unwrap())
                }
            };
        };
        assert_eq!(data.len(), size as usize);
        returned.extend_from_slice(&data);
        offset += size as i64;
    }
    assert_eq!(returned, stream);

    // The reader closes the file: the worker shuts the device down.
    assert!(fs.release(fh));
    let started = grabber.sent.len();
    let mut task = task.unwrap();
    loop {
        match produce(&mut worker, task, &mut grabber, &mut queue) {
            Some(next) => task = next,
            None => break,
        }
    }
    assert_eq!(
        grabber.sent[started..].to_vec(),
        vec![
            Command::SetState { state: 0 },
            Command::SetPcGrabber { start: 0 },
            Command::GetPcGrabber,
        ]
    );
    assert_eq!(grabber.sent[0], Command::SetPcGrabber { start: 1 });
    assert_eq!(
        grabber.sent[5],
        Command::SetPcGrabber2 {
            device_model: 2,
            counter: 1,
            width: 1280,
            height: 720,
            kbitrate: 8000,
            framerate: 30,
        }
    );
}
