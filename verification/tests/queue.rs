use rusic::Command;
use rusic::CommandQueue;

#[test]
fn queue_is_fifo() {
    let mut q = CommandQueue::new();
    q.push(Command::Load("a.mp3".to_owned()));
    q.push(Command::Stop);
    q.push(Command::Load("b.mp3".to_owned()));
    assert_eq!(q.try_pop(), Some(Command::Load("a.mp3".to_owned())));
    assert_eq!(q.try_pop(), Some(Command::Stop));
    assert_eq!(q.try_pop(), Some(Command::Load("b.mp3".to_owned())));
    assert_eq!(q.try_pop(), None);
}

#[test]
fn empty_queue_answers_at_once() {
    let mut q = CommandQueue::new();
    assert_eq!(q.try_pop(), None);
    q.push(Command::Shutdown);
    assert_eq!(q.try_pop(), Some(Command::Shutdown));
    assert_eq!(q.try_pop(), None);
}
