/* RP2040: the last 16 KiB of flash hold the settings. */
MEMORY {
    BOOT2 : ORIGIN = 0x10000000, LENGTH = 0x100
    FLASH : ORIGIN = 0x10000100, LENGTH = 2048K - 0x100 - 16K
    RAM   : ORIGIN = 0x20000000, LENGTH = 264K
}
