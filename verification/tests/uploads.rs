use dear_imgui_ash::allocator::Memory;
use dear_imgui_ash::error::RendererError;
use dear_imgui_ash::pixels::{TextureFormat, TextureRect};
use dear_imgui_ash::texture_manager::TextureUploadRect;
use dear_imgui_ash::uploads::{
    finish_destroy_upload_gate, finish_managed_upload_gate, InFlightUpload, ManagedUploadDecision,
    ManagedUploadTracker, TextureOp, UploadQueue, UploadSignature,
};

fn signature(byte: u8) -> UploadSignature {
    UploadSignature::Create {
        format: TextureFormat::RGBA32,
        width: 1,
        height: 1,
        row_pitch: 4,
        pixels: vec![byte; 4],
    }
}

#[test]
fn pending_upload_cannot_produce_feedback_until_completion() {
    let mut tracker = ManagedUploadTracker::<u32>::default();
    let texture = 3;
    let retry_signature = signature(1);
    let texture_id = 42_u64;

    assert_eq!(tracker.decide(texture, &retry_signature), ManagedUploadDecision::Submit);
    tracker.submitted(texture, signature(1), texture_id);
    assert_eq!(tracker.decide(texture, &retry_signature), ManagedUploadDecision::Wait);
    tracker.completed(texture);
    assert_eq!(tracker.decide(texture, &retry_signature), ManagedUploadDecision::Ready(texture_id));
    assert_eq!(tracker.decide(texture, &retry_signature), ManagedUploadDecision::Submit);
}

#[test]
fn changed_request_waits_and_old_completion_cannot_ack_it() {
    let mut tracker = ManagedUploadTracker::<u32>::default();
    let texture = 4;
    let first = signature(1);
    let changed = signature(2);

    tracker.submitted(texture, first, 9);
    assert_eq!(tracker.decide(texture, &changed), ManagedUploadDecision::Wait);
    tracker.completed(texture);
    assert_eq!(tracker.decide(texture, &changed), ManagedUploadDecision::Submit);
}

#[test]
fn completed_upload_can_be_taken_without_rechecking_its_signature() {
    let mut tracker = ManagedUploadTracker::<u32>::default();
    let texture = 5;
    let texture_id = 10_u64;
    tracker.submitted(texture, signature(1), texture_id);

    assert_eq!(tracker.take_completed(texture), None);
    assert!(tracker.is_pending(texture));

    tracker.completed(texture);
    assert_eq!(tracker.take_completed(texture), Some(texture_id));
    assert_eq!(tracker.decide(texture, &signature(2)), ManagedUploadDecision::Submit);
}

#[test]
fn recoverable_wait_failure_keeps_managed_upload_owned() {
    let mut tracker = ManagedUploadTracker::<u32>::default();
    let texture = 6;
    let texture_id = 12_u64;
    tracker.submitted(texture, signature(2), texture_id);

    let result = finish_managed_upload_gate(&mut tracker, texture, Err("wait failed"));

    assert_eq!(result, Err("wait failed"));
    assert!(tracker.is_pending(texture));
    tracker.completed(texture);
    assert_eq!(
        finish_managed_upload_gate::<_, &str>(&mut tracker, texture, Ok(())),
        Ok(Some(texture_id))
    );
    assert!(!tracker.is_pending(texture));
}

#[test]
fn recoverable_wait_failure_keeps_destroy_upload_owned() {
    let mut tracker = ManagedUploadTracker::<u32>::default();
    let texture = 8;
    tracker.submitted(texture, signature(3), 11);

    let result = finish_destroy_upload_gate(&mut tracker, texture, Err("wait failed"));

    assert_eq!(result, Err("wait failed"));
    assert!(tracker.is_pending(texture));
    tracker.completed(texture);
    finish_destroy_upload_gate::<_, &str>(&mut tracker, texture, Ok(())).unwrap();
    assert!(!tracker.is_pending(texture));
}

#[test]
fn signatures_follow_the_operation_and_compare_every_byte() {
    let create = TextureOp::Create {
        format: TextureFormat::RGBA32,
        width: 1,
        height: 1,
        row_pitch: 4,
        pixels: vec![1; 4],
    };
    let sig = UploadSignature::from_operation(&create).unwrap();
    assert!(sig.same_as(&signature(1)));
    assert!(!sig.same_as(&signature(2)));

    let update = |byte: u8| TextureOp::Update {
        format: TextureFormat::RGBA32,
        width: 2,
        height: 1,
        rects: vec![TextureUploadRect {
            rect: TextureRect { x: 1, y: 0, w: 1, h: 1 },
            row_pitch: 4,
            data: vec![byte; 4],
        }],
    };
    let a = UploadSignature::from_operation(&update(5)).unwrap();
    let b = UploadSignature::from_operation(&update(5)).unwrap();
    let c = UploadSignature::from_operation(&update(6)).unwrap();
    assert!(a.same_as(&b));
    assert!(!a.same_as(&c));
    assert!(!a.same_as(&sig));
    assert!(UploadSignature::from_operation(&TextureOp::Destroy).is_none());
}

#[test]
fn cancel_forgets_a_tracked_upload() {
    let mut tracker = ManagedUploadTracker::<u32>::default();
    tracker.submitted(1, signature(1), 3);
    tracker.cancel(1);
    assert!(!tracker.is_pending(1));
    assert_eq!(tracker.decide(1, &signature(1)), ManagedUploadDecision::Submit);
}

fn in_flight(fence: u64, managed_texture: Option<u32>) -> InFlightUpload<u32> {
    InFlightUpload {
        fence,
        command_buffer: fence + 100,
        staging: vec![(fence + 200, Memory::Device(fence + 300))],
        managed_texture,
    }
}

#[test]
fn uploads_are_reaped_oldest_first_and_complete_their_textures() {
    let mut tracker = ManagedUploadTracker::<u32>::default();
    tracker.submitted(7, signature(1), 70);
    let mut queue: UploadQueue<u32> = UploadQueue::new();
    assert_eq!(queue.front_fence(), None);
    queue.push(in_flight(1, None));
    queue.push(in_flight(2, Some(7)));
    assert_eq!(queue.len(), 2);
    assert_eq!(queue.front_fence(), Some(1));

    let first = queue.pop_completed_front(&mut tracker).unwrap();
    assert_eq!(first.fence, 1);
    assert_eq!(first.command_buffer, 101);
    assert!(tracker.is_pending(7));
    assert_eq!(queue.front_fence(), Some(2));

    let second = queue.pop_completed_front(&mut tracker).unwrap();
    assert_eq!(second.staging, vec![(202, Memory::Device(302))]);
    assert!(!tracker.is_pending(7));
    assert_eq!(tracker.take_completed(7), Some(70));
    assert!(queue.pop_completed_front(&mut tracker).is_none());
}

#[test]
fn draining_completes_every_managed_upload() {
    let mut tracker = ManagedUploadTracker::<u32>::default();
    tracker.submitted(7, signature(1), 70);
    tracker.submitted(8, signature(2), 80);
    let mut queue: UploadQueue<u32> = UploadQueue::new();
    queue.push(in_flight(1, Some(7)));
    queue.push(in_flight(2, None));
    queue.push(in_flight(3, Some(8)));
    let drained = queue.drain_completed(&mut tracker);
    assert_eq!(drained.iter().map(|u| u.fence).collect::<Vec<_>>(), vec![1, 2, 3]);
    assert_eq!(queue.len(), 0);
    assert!(!tracker.is_pending(7));
    assert!(!tracker.is_pending(8));
}

#[test]
fn managed_feedback_waits_on_the_fence_of_its_upload() {
    let mut queue: UploadQueue<u32> = UploadQueue::new();
    queue.push(in_flight(1, None));
    queue.push(in_flight(2, Some(7)));
    queue.push(in_flight(3, Some(7)));
    assert_eq!(queue.fence_for_managed(7), Ok(2));
    assert_eq!(
        queue.fence_for_managed(8),
        Err(RendererError::InvalidRenderState(
            "managed texture has pending feedback without an upload fence"
        ))
    );
}
