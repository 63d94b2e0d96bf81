//! The programs that run inside a container and carry waypipe's streams.
use vstd::prelude::*;

verus! {

/// Carries streams over the standard input and output of the container.
pub const GUEST_RELAY_PERL: &'static str = r#"
use strict;
use warnings;
use IO::Socket::UNIX;
use IO::Select;
use File::Path qw(make_path);
use IO::Handle;
use POSIX qw(WNOHANG);
my $sock_path = shift @ARGV;
my $dir = $sock_path;
$dir =~ s{/[^/]+$}{};
make_path($dir) if length($dir) && !-d $dir;
make_path($ENV{XDG_RUNTIME_DIR}) if exists $ENV{XDG_RUNTIME_DIR} && length($ENV{XDG_RUNTIME_DIR}) && !-d $ENV{XDG_RUNTIME_DIR};
unlink $sock_path;
my $server = IO::Socket::UNIX->new(Type => SOCK_STREAM, Local => $sock_path, Listen => 128) or die "listen $sock_path: $!\n";
my $pid = fork();
die "fork: $!\n" unless defined $pid;
if ($pid == 0) {
  exec @ARGV;
  die "exec @ARGV: $!\n";
}
binmode STDIN;
binmode STDOUT;
my $sel = IO::Select->new(\*STDIN, $server);
my %peers;
my %peer_ids;
my $next_id = 1;
my $input = '';

sub write_all {
  my ($fh, $data) = @_;
  my $offset = 0;
  while ($offset < length($data)) {
    my $written = syswrite($fh, $data, length($data) - $offset, $offset);
    return 0 unless defined $written && $written > 0;
    $offset += $written;
  }
  return 1;
}

sub send_frame {
  my ($kind, $id, $data) = @_;
  $data = '' unless defined $data;
  return write_all(\*STDOUT, pack('CNN', $kind, $id, length($data)) . $data);
}

sub close_peer {
  my ($id, $notify) = @_;
  my $peer = delete $peers{$id};
  return unless $peer;
  delete $peer_ids{fileno($peer)};
  $sel->remove($peer);
  close $peer;
  send_frame(3, $id, '') if $notify;
}

while (1) {
  last if waitpid($pid, WNOHANG) == $pid;
  my @ready = $sel->can_read(0.25);
  for my $fh (@ready) {
    if ($fh == $server) {
      my $peer = $server->accept();
      next unless $peer;
      binmode $peer;
      my $id = $next_id++;
      $peers{$id} = $peer;
      $peer_ids{fileno($peer)} = $id;
      $sel->add($peer);
      send_frame(1, $id, '') or exit 1;
      next;
    }

    if ($fh == \*STDIN) {
      my $chunk = '';
      my $n = sysread(STDIN, $chunk, 65536);
      exit 0 unless defined $n && $n > 0;
      $input .= $chunk;
      while (length($input) >= 9) {
        my ($kind, $id, $length) = unpack('CNN', substr($input, 0, 9));
        die "relay frame too large\n" if $length > 16 * 1024 * 1024;
        last if length($input) < 9 + $length;
        substr($input, 0, 9, '');
        my $data = substr($input, 0, $length, '');
        if ($kind == 2 && exists $peers{$id}) {
          close_peer($id, 1) unless write_all($peers{$id}, $data);
        } elsif ($kind == 3) {
          close_peer($id, 0);
        }
      }
      next;
    }

    my $id = $peer_ids{fileno($fh)};
    my $data = '';
    my $n = sysread($fh, $data, 65536);
    if (!defined $n || $n == 0) {
      close_peer($id, 1);
    } else {
      send_frame(2, $id, $data) or exit 1;
    }
  }
}
for my $id (keys %peers) {
  close_peer($id, 1);
}
waitpid($pid, 0);
"#;

/// Carries streams over a published socket, once the audio relay is ready.
pub const GUEST_PUBLISH_SOCKET_RELAY_PERL: &'static str = r#"
use strict;
use warnings;
use IO::Socket::UNIX;
use IO::Select;
use File::Path qw(make_path);
use POSIX qw(WNOHANG);
my $sock_path = shift @ARGV;
my $transport_path = shift @ARGV;
for my $path ($sock_path, $transport_path) {
  my $dir = $path;
  $dir =~ s{/[^/]+$}{};
  make_path($dir) if length($dir) && !-d $dir;
  unlink $path;
}
make_path($ENV{XDG_RUNTIME_DIR}) if exists $ENV{XDG_RUNTIME_DIR} && length($ENV{XDG_RUNTIME_DIR}) && !-d $ENV{XDG_RUNTIME_DIR};
my $server = IO::Socket::UNIX->new(Type => SOCK_STREAM, Local => $sock_path, Listen => 128) or die "listen $sock_path: $!\n";
my $transport_server = IO::Socket::UNIX->new(Type => SOCK_STREAM, Local => $transport_path, Listen => 1) or die "listen $transport_path: $!\n";
my $audio_pid;
if (exists $ENV{COCOA_WAY_AUDIO_SOCKET} && length($ENV{COCOA_WAY_AUDIO_SOCKET}) && -x "/usr/local/bin/cocoa-way-audio-relay") {
  my $ready = "/tmp/cocoa-way-audio.ready";
  unlink $ready;
  $audio_pid = fork();
  die "audio fork: $!\n" unless defined $audio_pid;
  if ($audio_pid == 0) {
    $ENV{COCOA_WAY_AUDIO_READY} = $ready;
    exec "/usr/local/bin/cocoa-way-audio-relay";
    die "exec cocoa-way-audio-relay: $!\n";
  }
  my $attempt = 0;
  while ((!-e $ready || !-S $ENV{COCOA_WAY_AUDIO_SOCKET}) && $attempt < 200) {
    $attempt++;
    select undef, undef, undef, 0.05;
  }
  die "audio relay did not become ready\n" unless -e $ready && -S $ENV{COCOA_WAY_AUDIO_SOCKET};
}
STDOUT->autoflush(1);
print STDOUT "COCOA_WAY_TRANSPORT_V2_READY\n";
my $pid = fork();
die "fork: $!\n" unless defined $pid;
if ($pid == 0) {
  exec @ARGV;
  die "exec @ARGV: $!\n";
}
my $transport = $transport_server->accept() or die "accept transport: $!\n";
binmode $transport;
my $hello = '';
while (length($hello) < 5) {
  my $n = sysread($transport, $hello, 5 - length($hello), length($hello));
  die "transport handshake ended early\n" unless defined $n && $n > 0;
}
die "unsupported transport handshake\n" unless $hello eq "CWV2\x01";
print STDERR "cocoa-way transport v2: host channel connected\n";
my $sel = IO::Select->new($transport, $server);
my %peers;
my %peer_ids;
my $next_id = 1;
my $input = '';
my $child_exited = 0;

sub write_all {
  my ($fh, $data) = @_;
  my $offset = 0;
  while ($offset < length($data)) {
    my $written = syswrite($fh, $data, length($data) - $offset, $offset);
    return 0 unless defined $written && $written > 0;
    $offset += $written;
  }
  return 1;
}

sub send_frame {
  my ($kind, $id, $data) = @_;
  $data = '' unless defined $data;
  return write_all($transport, pack('CNN', $kind, $id, length($data)) . $data);
}

sub close_peer {
  my ($id, $notify) = @_;
  my $peer = delete $peers{$id};
  return unless $peer;
  delete $peer_ids{fileno($peer)};
  $sel->remove($peer);
  close $peer;
  send_frame(3, $id, '') if $notify;
}

RELAY: while (1) {
  if (waitpid($pid, WNOHANG) == $pid) {
    $child_exited = 1;
    last RELAY;
  }
  my @ready = $sel->can_read(0.25);
  for my $fh (@ready) {
    if ($fh == $server) {
      my $peer = $server->accept();
      next unless $peer;
      binmode $peer;
      my $id = $next_id++;
      $peers{$id} = $peer;
      $peer_ids{fileno($peer)} = $id;
      $sel->add($peer);
      print STDERR "cocoa-way transport v2: opened stream $id\n";
      last RELAY unless send_frame(1, $id, '');
      next;
    }

    if ($fh == $transport) {
      my $chunk = '';
      my $n = sysread($transport, $chunk, 65536);
      last RELAY unless defined $n && $n > 0;
      $input .= $chunk;
      while (length($input) >= 9) {
        my ($kind, $id, $length) = unpack('CNN', substr($input, 0, 9));
        die "relay frame too large\n" if $length > 16 * 1024 * 1024;
        last if length($input) < 9 + $length;
        substr($input, 0, 9, '');
        my $data = substr($input, 0, $length, '');
        if ($kind == 2 && exists $peers{$id}) {
          close_peer($id, 1) unless write_all($peers{$id}, $data);
        } elsif ($kind == 3) {
          close_peer($id, 0);
        }
      }
      next;
    }

    my $id = $peer_ids{fileno($fh)};
    my $data = '';
    my $n = sysread($fh, $data, 65536);
    if (!defined $n || $n == 0) {
      close_peer($id, 1);
    } else {
      last RELAY unless send_frame(2, $id, $data);
    }
  }
}
for my $id (keys %peers) {
  close_peer($id, 0);
}
unless ($child_exited) {
  kill 'TERM', $pid;
  waitpid($pid, 0);
}
if (defined $audio_pid) {
  kill 'TERM', $audio_pid;
  waitpid($audio_pid, 0);
}
unlink $sock_path;
unlink $transport_path;
"#;

pub fn guest_relay_perl() -> (result: &'static str)
    ensures
        result@ == GUEST_RELAY_PERL@,
{
    GUEST_RELAY_PERL
}

pub fn guest_publish_socket_relay_perl() -> (result: &'static str)
    ensures
        result@ == GUEST_PUBLISH_SOCKET_RELAY_PERL@,
{
    GUEST_PUBLISH_SOCKET_RELAY_PERL
}

} // verus!
